//! Overall game state: the current screen, battle tracking and run
//! counters.

use vstd::prelude::*;
use crate::battle::{BattlePhase, BattleState};
use crate::cards::Card;
use crate::enemy::Enemy;
use crate::servant::Servant;

verus! {

/// Current UI state/screen.
#[derive(Debug, Clone, Copy, PartialEq, Eq, Structural)]
pub enum UIState {
    /// Unknown screen.
    Unknown,
    /// Main menu / My Room.
    MainMenu,
    /// Quest selection screen.
    QuestSelection,
    /// Party setup screen.
    PartySetup,
    /// Support selection screen.
    SupportSelection,
    /// Loading screen.
    Loading,
    /// In battle - command phase.
    BattleCommand,
    /// In battle - card selection.
    BattleCards,
    /// In battle - attack animation.
    BattleAttack,
    /// In battle - enemy turn.
    BattleEnemy,
    /// Battle result screen.
    BattleResult,
    /// Friend point summon result.
    FPSummonResult,
    /// Bond/EXP result screen.
    BondResult,
    /// Quest complete screen.
    QuestComplete,
    /// Item drop screen.
    ItemDrops,
    /// Dialog/story scene.
    Dialog,
    /// Connection error.
    ConnectionError,
    /// AP recovery dialog.
    APRecovery,
    /// Mystic Code selection.
    MysticCodeSelect,
}

pub open spec fn spec_is_battle(s: UIState) -> bool {
    s is BattleCommand || s is BattleCards || s is BattleAttack || s is BattleEnemy
}

pub open spec fn spec_is_result_screen(s: UIState) -> bool {
    s is BattleResult || s is BondResult || s is QuestComplete || s is ItemDrops
}

pub open spec fn spec_requires_input(s: UIState) -> bool {
    ||| s is BattleCommand
    ||| s is BattleCards
    ||| s is PartySetup
    ||| s is SupportSelection
    ||| s is Dialog
    ||| s is APRecovery
    ||| s is BattleResult
    ||| s is BondResult
    ||| s is QuestComplete
    ||| s is ItemDrops
}

impl UIState {
    /// Check if this is a battle-related state.
    pub fn is_battle(&self) -> (r: bool)
        ensures
            r == spec_is_battle(*self),
    {
        matches!(
            self,
            UIState::BattleCommand | UIState::BattleCards | UIState::BattleAttack
                | UIState::BattleEnemy
        )
    }

    /// Check if this is a result/reward screen.
    pub fn is_result_screen(&self) -> (r: bool)
        ensures
            r == spec_is_result_screen(*self),
    {
        matches!(
            self,
            UIState::BattleResult | UIState::BondResult | UIState::QuestComplete
                | UIState::ItemDrops
        )
    }

    /// Check if interaction is expected in this state.
    pub fn requires_input(&self) -> (r: bool)
        ensures
            r == spec_requires_input(*self),
    {
        matches!(
            self,
            UIState::BattleCommand | UIState::BattleCards | UIState::PartySetup
                | UIState::SupportSelection | UIState::Dialog | UIState::APRecovery
                | UIState::BattleResult | UIState::BondResult | UIState::QuestComplete
                | UIState::ItemDrops
        )
    }
}

/// Result of analyzing a battle screen, as plain values handed in by the
/// recognition collaborator.
#[derive(Debug, Clone)]
pub struct BattleInfo {
    /// Current wave number.
    pub wave_number: u32,
    /// Total waves.
    pub total_waves: u32,
    /// Detected servants.
    pub servants: Vec<Servant>,
    /// Detected enemies.
    pub enemies: Vec<Enemy>,
    /// Available command cards (in card selection).
    pub available_cards: Vec<Card>,
    /// Critical stars available.
    pub critical_stars: u32,
    /// Whether the attack button is visible.
    pub attack_button_visible: bool,
    /// Whether skills are visible.
    pub skills_visible: bool,
}

/// Overall game state.
#[derive(Debug, Clone)]
pub struct GameState {
    /// Current UI state.
    pub ui_state: UIState,
    /// Previous UI state (for transition detection).
    pub previous_ui_state: UIState,
    /// Current battle state (if in battle).
    pub battle: Option<BattleState>,
    /// Number of frames in the current UI state.
    pub frames_in_state: u32,
    /// Whether automation is paused.
    pub is_paused: bool,
    /// Current quest name (if known).
    pub quest_name: Option<String>,
    /// Farming loop count.
    pub loop_count: u32,
    /// Total runs completed.
    pub runs_completed: u32,
}

impl GameState {
    /// Create a new game state.
    pub fn new() -> (g: GameState)
        ensures
            g.ui_state is Unknown,
            g.previous_ui_state is Unknown,
            g.battle is None,
            g.frames_in_state == 0,
            g.is_paused == false,
            g.quest_name is None,
            g.loop_count == 0,
            g.runs_completed == 0,
    {
        GameState {
            ui_state: UIState::Unknown,
            previous_ui_state: UIState::Unknown,
            battle: None,
            frames_in_state: 0,
            is_paused: false,
            quest_name: None,
            loop_count: 0,
            runs_completed: 0,
        }
    }

    /// Update the UI state. A repeated state bumps the frame counter; a new
    /// state resets it, records the previous state, and runs the battle,
    /// run-complete and loop transitions.
    pub fn update_ui_state(&mut self, new_state: UIState)
        requires
            old(self).frames_in_state < u32::MAX,
            old(self).runs_completed < u32::MAX,
            old(self).loop_count < u32::MAX,
        ensures
            new_state == old(self).ui_state ==> *final(self) == (GameState {
                frames_in_state: (old(self).frames_in_state + 1) as u32,
                ..*old(self)
            }),
            new_state != old(self).ui_state ==> {
                &&& final(self).ui_state == new_state
                &&& final(self).previous_ui_state == old(self).ui_state
                &&& final(self).frames_in_state == 0
                &&& final(self).is_paused == old(self).is_paused
                &&& spec_transition_battle(old(self).ui_state, new_state, old(self).battle,
                    final(self).battle)
                &&& final(self).runs_completed == (
                    if spec_is_run_complete_transition(old(self).ui_state, new_state) {
                        old(self).runs_completed + 1
                    } else {
                        old(self).runs_completed as int
                    })
                &&& final(self).loop_count == (
                    if spec_is_loop_transition(old(self).ui_state, new_state) {
                        old(self).loop_count + 1
                    } else {
                        old(self).loop_count as int
                    })
            },
    {
        if new_state != self.ui_state {
            self.previous_ui_state = self.ui_state;
            self.ui_state = new_state;
            self.frames_in_state = 0;
            self.on_state_transition(new_state);
        } else {
            self.frames_in_state = self.frames_in_state + 1;
        }
    }

    /// Handle state transitions. `from` is the recorded previous state.
    fn on_state_transition(&mut self, to: UIState)
        requires
            old(self).runs_completed < u32::MAX,
            old(self).loop_count < u32::MAX,
        ensures
            spec_transition_battle(old(self).previous_ui_state, to, old(self).battle,
                final(self).battle),
            final(self).runs_completed == (
                if spec_is_run_complete_transition(old(self).previous_ui_state, to) {
                    old(self).runs_completed + 1
                } else {
                    old(self).runs_completed as int
                }),
            final(self).loop_count == (
                if spec_is_loop_transition(old(self).previous_ui_state, to) {
                    old(self).loop_count + 1
                } else {
                    old(self).loop_count as int
                }),
            final(self).ui_state == old(self).ui_state,
            final(self).previous_ui_state == old(self).previous_ui_state,
            final(self).frames_in_state == old(self).frames_in_state,
            final(self).is_paused == old(self).is_paused,
    {
        let from = self.previous_ui_state;
        if matches!(to, UIState::BattleCommand) && !from.is_battle() {
            self.battle = Some(BattleState::new());
        } else if matches!(from, UIState::BattleAttack) && matches!(to, UIState::BattleResult) {
            if self.battle.is_some() {
                let mut b = self.battle.take().unwrap();
                b.phase = BattlePhase::Victory;
                self.battle = Some(b);
            }
        } else if matches!(from, UIState::BattleResult | UIState::BondResult | UIState::ItemDrops)
            && matches!(to, UIState::QuestComplete) {
            self.runs_completed = self.runs_completed + 1;
            self.battle = None;
        } else if matches!(from, UIState::QuestComplete)
            && matches!(to, UIState::MainMenu | UIState::QuestSelection) {
            self.loop_count = self.loop_count + 1;
        }
    }

    /// Check if currently in battle.
    pub fn is_in_battle(&self) -> (r: bool)
        ensures
            r == spec_is_battle(self.ui_state),
    {
        self.ui_state.is_battle()
    }

    /// Get the current battle state.
    pub fn battle_state(&self) -> (r: Option<&BattleState>)
        ensures
            self.battle is Some ==> (r matches Some(b) && *b == self.battle->0),
            self.battle is None ==> r is None,
    {
        self.battle.as_ref()
    }

    /// Update the battle state from a fresh recognition result.
    pub fn update_battle_state(&mut self, info: &BattleInfo)
        ensures
            old(self).battle is None ==> *final(self) == *old(self),
            old(self).battle matches Some(b) ==> (final(self).battle matches Some(nb) && {
                &&& nb.current_wave.wave_number == info.wave_number
                &&& nb.current_wave.total_waves == info.total_waves
                &&& nb.total_waves == info.total_waves
                &&& nb.servants@ == info.servants@
                &&& nb.current_wave.enemies@ == info.enemies@
                &&& nb.critical_stars == info.critical_stars
                &&& info.available_cards@.len() > 0 ==> {
                    &&& nb.phase is CardSelection
                    &&& nb.available_cards@ == info.available_cards@
                    &&& nb.selected_cards@.len() == 0
                }
                &&& info.available_cards@.len() == 0 ==> {
                    &&& nb.phase == b.phase
                    &&& nb.available_cards == b.available_cards
                    &&& nb.selected_cards == b.selected_cards
                }
                &&& nb.np_available@.len() == 3
                &&& forall|i: int| 0 <= i < 3 && i < info.servants@.len()
                    ==> #[trigger] nb.np_available@[i] == crate::servant::spec_can_np(
                        info.servants@[i])
                &&& nb.target_enemy == b.target_enemy
                &&& nb.master_skills == b.master_skills
            }),
            final(self).ui_state == old(self).ui_state,
            final(self).previous_ui_state == old(self).previous_ui_state,
            final(self).frames_in_state == old(self).frames_in_state,
            final(self).is_paused == old(self).is_paused,
            final(self).loop_count == old(self).loop_count,
            final(self).runs_completed == old(self).runs_completed,
    {
        if self.battle.is_some() {
            let mut b = self.battle.take().unwrap();
            b.current_wave.wave_number = info.wave_number;
            b.total_waves = info.total_waves;
            b.current_wave.total_waves = info.total_waves;
            b.servants = clone_servants(&info.servants);
            b.current_wave.enemies = clone_enemies(&info.enemies);
            if info.available_cards.len() > 0 {
                b.enter_card_selection(clone_cards(&info.available_cards));
            }
            b.critical_stars = info.critical_stars;
            let ghost b0 = b;
            let n = b.servants.len();
            let mut i: usize = 0;
            while i < n && i < 3
                invariant
                    n == b.servants@.len(),
                    i <= 3,
                    i <= n,
                    b == (BattleState { np_available: b.np_available, ..b0 }),
                    b.np_available@.len() == 3,
                    forall|j: int| 0 <= j < i && j < n ==> #[trigger] b.np_available@[j]
                        == crate::servant::spec_can_np(b0.servants@[j]),
                decreases 3 - i,
            {
                let ready = b.servants[i].can_np();
                b.np_available[i] = ready;
                i = i + 1;
            }
            self.battle = Some(b);
        }
    }

    /// Pause automation.
    pub fn pause(&mut self)
        ensures
            *final(self) == (GameState { is_paused: true, ..*old(self) }),
    {
        self.is_paused = true;
    }

    /// Resume automation.
    pub fn resume(&mut self)
        ensures
            *final(self) == (GameState { is_paused: false, ..*old(self) }),
    {
        self.is_paused = false;
    }

    /// Check if the game seems stuck: many frames in one state that expects
    /// input.
    pub fn is_stuck(&self, threshold: u32) -> (r: bool)
        ensures
            r == (self.frames_in_state > threshold && spec_requires_input(self.ui_state)),
    {
        self.frames_in_state > threshold && self.ui_state.requires_input()
    }

    /// Reset for a new farming loop.
    pub fn reset_for_new_run(&mut self)
        ensures
            *final(self) == (GameState { battle: None, frames_in_state: 0u32, ..*old(self) }),
    {
        self.battle = None;
        self.frames_in_state = 0;
    }
}

/// How the battle field relates to its old value across a screen
/// transition: entering battle starts a fresh battle; the attack-to-result
/// edge marks victory; finishing a quest clears it; everything else leaves
/// it alone.
pub open spec fn spec_transition_battle(
    from: UIState,
    to: UIState,
    battle: Option<BattleState>,
    new_battle: Option<BattleState>,
) -> bool {
    if to is BattleCommand && !spec_is_battle(from) {
        new_battle matches Some(b) && spec_is_fresh_battle(b)
    } else if from is BattleAttack && to is BattleResult {
        match battle {
            Some(b) => new_battle == Some(BattleState { phase: BattlePhase::Victory, ..b }),
            None => new_battle is None,
        }
    } else if spec_is_run_complete_transition(from, to) {
        new_battle is None
    } else {
        new_battle == battle
    }
}

/// A battle state as `BattleState::new` builds it.
pub open spec fn spec_is_fresh_battle(b: BattleState) -> bool {
    &&& b.phase is Unknown
    &&& b.turn == 1
    &&& b.current_wave.wave_number == 1
    &&& b.current_wave.total_waves == 3
    &&& b.current_wave.enemies@.len() == 0
    &&& b.servants@.len() == 0
    &&& b.backline@.len() == 0
    &&& b.available_cards@.len() == 0
    &&& b.selected_cards@.len() == 0
    &&& b.np_available@ =~= seq![false, false, false]
    &&& b.target_enemy is None
    &&& b.master_skills.available == true
    &&& b.master_skills.cooldowns@ =~= seq![0u32, 0u32, 0u32]
    &&& b.critical_stars == 0
    &&& b.total_waves == 3
}

/// The transition that completes a run: a result-type screen into the quest
/// complete screen.
pub open spec fn spec_is_run_complete_transition(from: UIState, to: UIState) -> bool {
    (from is BattleResult || from is BondResult || from is ItemDrops) && to is QuestComplete
}

/// The transition that closes a farming loop: leaving the quest complete
/// screen for a menu.
pub open spec fn spec_is_loop_transition(from: UIState, to: UIState) -> bool {
    from is QuestComplete && (to is MainMenu || to is QuestSelection)
}

/// Copy a servant list value-for-value.
fn clone_servants(v: &Vec<Servant>) -> (r: Vec<Servant>)
    ensures
        r@ == v@,
{
    let mut r: Vec<Servant> = Vec::new();
    let mut i: usize = 0;
    while i < v.len()
        invariant
            i <= v@.len(),
            r@ == v@.take(i as int),
        decreases v@.len() - i,
    {
        r.push(v[i]);
        proof {
            assert(r@ =~= v@.take(i + 1));
        }
        i = i + 1;
    }
    proof {
        assert(v@.take(v@.len() as int) =~= v@);
    }
    r
}

/// Copy an enemy list value-for-value.
fn clone_enemies(v: &Vec<Enemy>) -> (r: Vec<Enemy>)
    ensures
        r@ == v@,
{
    let mut r: Vec<Enemy> = Vec::new();
    let mut i: usize = 0;
    while i < v.len()
        invariant
            i <= v@.len(),
            r@ == v@.take(i as int),
        decreases v@.len() - i,
    {
        r.push(v[i]);
        proof {
            assert(r@ =~= v@.take(i + 1));
        }
        i = i + 1;
    }
    proof {
        assert(v@.take(v@.len() as int) =~= v@);
    }
    r
}

/// Copy a card list value-for-value.
fn clone_cards(v: &Vec<Card>) -> (r: Vec<Card>)
    ensures
        r@ == v@,
{
    let mut r: Vec<Card> = Vec::new();
    let mut i: usize = 0;
    while i < v.len()
        invariant
            i <= v@.len(),
            r@ == v@.take(i as int),
        decreases v@.len() - i,
    {
        r.push(v[i]);
        proof {
            assert(r@ =~= v@.take(i + 1));
        }
        i = i + 1;
    }
    proof {
        assert(v@.take(v@.len() as int) =~= v@);
    }
    r
}

} // verus!
