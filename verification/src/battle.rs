//! The state of an ongoing battle: phase, waves, servants, cards and
//! cooldowns.

use vstd::prelude::*;
use crate::cards::{Card, CardType};
use crate::enemy::EnemyWave;
use crate::servant::Servant;

verus! {

/// Current phase of the battle. Transitions are driven by the recognition
/// collaborator, never by the engine itself.
#[derive(Debug, Clone, Copy, PartialEq, Eq, Structural)]
pub enum BattlePhase {
    /// Waiting for battle to start.
    PreBattle,
    /// In the skill/attack selection phase.
    CommandPhase,
    /// Selecting cards.
    CardSelection,
    /// Watching attack animations.
    AttackPhase,
    /// Enemy turn.
    EnemyPhase,
    /// Battle complete (victory).
    Victory,
    /// Battle complete (defeat).
    Defeat,
    /// Unknown state.
    Unknown,
}

/// Master skills: three fixed slots with cooldowns.
#[derive(Debug, Clone, Copy)]
pub struct MasterSkills {
    /// Master skill cooldowns (3 skills).
    pub cooldowns: [u32; 3],
    /// Whether the master skills are available in this quest.
    pub available: bool,
}

impl Default for MasterSkills {
    fn default() -> (m: MasterSkills)
        ensures
            m.cooldowns@ =~= seq![0u32, 0u32, 0u32],
            m.available == true,
    {
        MasterSkills { cooldowns: [0, 0, 0], available: true }
    }
}

/// Whether master skill `skill_idx` is ready: a valid slot, off cooldown,
/// and the quest offers master skills at all.
pub open spec fn spec_master_skill_ready(m: MasterSkills, skill_idx: usize) -> bool {
    skill_idx < 3 && m.cooldowns[skill_idx as int] == 0 && m.available
}

impl MasterSkills {
    /// Check if a skill is ready.
    pub fn is_ready(&self, skill_idx: usize) -> (r: bool)
        ensures
            r == spec_master_skill_ready(*self, skill_idx),
    {
        skill_idx < 3 && self.cooldowns[skill_idx] == 0 && self.available
    }

    /// Use a master skill, putting it on the given cooldown. An out-of-range
    /// slot is ignored.
    pub fn use_skill(&mut self, skill_idx: usize, cooldown: u32)
        ensures
            skill_idx < 3 ==> final(self).cooldowns@ == old(self).cooldowns@.update(
                skill_idx as int, cooldown),
            skill_idx >= 3 ==> final(self).cooldowns == old(self).cooldowns,
            final(self).available == old(self).available,
    {
        if skill_idx < 3 {
            self.cooldowns[skill_idx] = cooldown;
        }
    }

    /// Tick all cooldowns down by one turn.
    pub fn tick_cooldowns(&mut self)
        ensures
            final(self).cooldowns@.len() == 3,
            forall|i: int| 0 <= i < 3 ==> #[trigger] final(self).cooldowns@[i]
                == (if old(self).cooldowns@[i] > 0 {
                    (old(self).cooldowns@[i] - 1) as u32
                } else {
                    0u32
                }),
            final(self).available == old(self).available,
    {
        let mut i: usize = 0;
        while i < 3
            invariant
                i <= 3,
                self.cooldowns@.len() == 3,
                self.available == old(self).available,
                forall|j: int| 0 <= j < i ==> #[trigger] self.cooldowns@[j]
                    == (if old(self).cooldowns@[j] > 0 {
                        (old(self).cooldowns@[j] - 1) as u32
                    } else {
                        0u32
                    }),
                forall|j: int| i <= j < 3 ==> #[trigger] self.cooldowns@[j]
                    == old(self).cooldowns@[j],
            decreases 3 - i,
        {
            if self.cooldowns[i] > 0 {
                self.cooldowns[i] = self.cooldowns[i] - 1;
            }
            i = i + 1;
        }
    }
}

/// Complete state of an ongoing battle.
#[derive(Debug, Clone)]
pub struct BattleState {
    /// Current battle phase.
    pub phase: BattlePhase,
    /// Current turn number.
    pub turn: u32,
    /// Current wave.
    pub current_wave: EnemyWave,
    /// Front-line servants (up to 3).
    pub servants: Vec<Servant>,
    /// Back-line servants (up to 3 more).
    pub backline: Vec<Servant>,
    /// Available command cards (up to 5).
    pub available_cards: Vec<Card>,
    /// Currently selected cards (up to 3).
    pub selected_cards: Vec<Card>,
    /// Whether NP cards are available, per front-line slot.
    pub np_available: [bool; 3],
    /// Currently targeted enemy index.
    pub target_enemy: Option<usize>,
    /// Master skills.
    pub master_skills: MasterSkills,
    /// Critical stars available.
    pub critical_stars: u32,
    /// Total waves in this battle.
    pub total_waves: u32,
}

/// The structural bounds a battle snapshot obeys: at most 3 units per line,
/// at most 3 enemies in the wave, at most 5 cards in the row and 3 selected.
pub open spec fn spec_battle_wf(s: BattleState) -> bool {
    &&& s.servants@.len() <= 3
    &&& s.backline@.len() <= 3
    &&& s.current_wave.enemies@.len() <= 3
    &&& s.available_cards@.len() <= 5
    &&& s.selected_cards@.len() <= 3
}

/// The indices below `upto` of servants whose NP is ready, in slot order.
pub open spec fn spec_np_ready_indices(servants: Seq<Servant>, upto: int) -> Seq<usize>
    decreases upto,
{
    if upto <= 0 {
        Seq::empty()
    } else if crate::servant::spec_can_np(servants[upto - 1]) {
        spec_np_ready_indices(servants, upto - 1).push((upto - 1) as usize)
    } else {
        spec_np_ready_indices(servants, upto - 1)
    }
}

/// The indices of front-line servants whose NP is ready.
pub open spec fn spec_servants_with_np(servants: Seq<Servant>) -> Seq<usize> {
    spec_np_ready_indices(servants, servants.len() as int)
}

/// Every index this returns is in range and names an NP-ready servant.
pub proof fn lemma_np_ready_indices_sound(servants: Seq<Servant>, upto: int)
    requires
        upto <= servants.len(),
        servants.len() <= usize::MAX,
    ensures
        forall|k: int| 0 <= k < spec_np_ready_indices(servants, upto).len()
            ==> (#[trigger] spec_np_ready_indices(servants, upto)[k]) < servants.len()
                && crate::servant::spec_can_np(
                    servants[spec_np_ready_indices(servants, upto)[k] as int]),
    decreases upto,
{
    if upto > 0 {
        lemma_np_ready_indices_sound(servants, upto - 1);
        let prev = spec_np_ready_indices(servants, upto - 1);
        let cur = spec_np_ready_indices(servants, upto);
        if crate::servant::spec_can_np(servants[upto - 1]) {
            assert(cur == prev.push((upto - 1) as usize));
            assert forall|k: int| 0 <= k < cur.len() implies (#[trigger] cur[k])
                < servants.len() && crate::servant::spec_can_np(servants[cur[k] as int]) by {
                if k < prev.len() {
                    assert(cur[k] == prev[k]);
                } else {
                    assert(cur[k] == (upto - 1) as usize);
                }
            }
        }
    }
}

impl BattleState {
    /// Create a new battle state with default values.
    pub fn new() -> (s: BattleState)
        ensures
            s.phase is Unknown,
            s.turn == 1,
            s.current_wave.wave_number == 1,
            s.current_wave.total_waves == 3,
            s.current_wave.enemies@.len() == 0,
            s.servants@.len() == 0,
            s.backline@.len() == 0,
            s.available_cards@.len() == 0,
            s.selected_cards@.len() == 0,
            s.np_available@ =~= seq![false, false, false],
            s.target_enemy is None,
            s.master_skills.available == true,
            s.master_skills.cooldowns@ =~= seq![0u32, 0u32, 0u32],
            s.critical_stars == 0,
            s.total_waves == 3,
            spec_battle_wf(s),
    {
        BattleState {
            phase: BattlePhase::Unknown,
            turn: 1,
            current_wave: EnemyWave::new(1, 3),
            servants: Vec::new(),
            backline: Vec::new(),
            available_cards: Vec::new(),
            selected_cards: Vec::new(),
            np_available: [false, false, false],
            target_enemy: None,
            master_skills: MasterSkills::default(),
            critical_stars: 0,
            total_waves: 3,
        }
    }

    /// Start a new turn: enter the command phase, clear the selection, tick
    /// every cooldown.
    pub fn start_turn(&mut self)
        ensures
            final(self).phase is CommandPhase,
            final(self).selected_cards@.len() == 0,
            final(self).servants@.len() == old(self).servants@.len(),
            final(self).available_cards == old(self).available_cards,
            final(self).np_available == old(self).np_available,
            final(self).target_enemy == old(self).target_enemy,
            forall|i: int, k: int| 0 <= i < old(self).servants@.len() && 0 <= k < 3
                ==> (#[trigger] final(self).servants@[i].skills@[k]).cooldown
                    == (if old(self).servants@[i].skills@[k].cooldown > 0 {
                        (old(self).servants@[i].skills@[k].cooldown - 1) as u32
                    } else {
                        0u32
                    }),
            forall|k: int| 0 <= k < 3 ==> #[trigger] final(self).master_skills.cooldowns@[k]
                == (if old(self).master_skills.cooldowns@[k] > 0 {
                    (old(self).master_skills.cooldowns@[k] - 1) as u32
                } else {
                    0u32
                }),
            *final(self) == (BattleState {
                phase: final(self).phase,
                selected_cards: final(self).selected_cards,
                servants: final(self).servants,
                master_skills: final(self).master_skills,
                ..*old(self)
            }),
    {
        self.phase = BattlePhase::CommandPhase;
        self.selected_cards.clear();
        let n = self.servants.len();
        let mut i: usize = 0;
        while i < n
            invariant
                n == self.servants@.len(),
                i <= n,
                self.phase is CommandPhase,
                self.selected_cards@.len() == 0,
                self.available_cards == old(self).available_cards,
                self.np_available == old(self).np_available,
                self.target_enemy == old(self).target_enemy,
                self.master_skills == old(self).master_skills,
                forall|j: int| i <= j < n ==> #[trigger] self.servants@[j]
                    == old(self).servants@[j],
                forall|j: int, k: int| 0 <= j < i && 0 <= k < 3
                    ==> (#[trigger] self.servants@[j].skills@[k]).cooldown
                        == (if old(self).servants@[j].skills@[k].cooldown > 0 {
                            (old(self).servants@[j].skills@[k].cooldown - 1) as u32
                        } else {
                            0u32
                        }),
                *self == (BattleState {
                    phase: self.phase,
                    selected_cards: self.selected_cards,
                    servants: self.servants,
                    master_skills: self.master_skills,
                    ..*old(self)
                }),
            decreases n - i,
        {
            let mut s = self.servants[i];
            s.tick_cooldowns();
            self.servants[i] = s;
            i = i + 1;
        }
        self.master_skills.tick_cooldowns();
    }

    /// Enter the card selection phase with a freshly recognized card row,
    /// and refresh the NP availability of the first three slots.
    pub fn enter_card_selection(&mut self, cards: Vec<Card>)
        ensures
            final(self).phase is CardSelection,
            final(self).available_cards == cards,
            final(self).selected_cards@.len() == 0,
            final(self).servants == old(self).servants,
            final(self).np_available@.len() == 3,
            forall|i: int| 0 <= i < 3 && i < old(self).servants@.len()
                ==> #[trigger] final(self).np_available@[i] == crate::servant::spec_can_np(
                    old(self).servants@[i]),
            forall|i: int| 0 <= i < 3 && i >= old(self).servants@.len()
                ==> #[trigger] final(self).np_available@[i] == old(self).np_available@[i],
            final(self).target_enemy == old(self).target_enemy,
            final(self).master_skills == old(self).master_skills,
            final(self).current_wave == old(self).current_wave,
            *final(self) == (BattleState {
                phase: final(self).phase,
                available_cards: final(self).available_cards,
                selected_cards: final(self).selected_cards,
                np_available: final(self).np_available,
                ..*old(self)
            }),
    {
        self.phase = BattlePhase::CardSelection;
        self.available_cards = cards;
        self.selected_cards.clear();
        let n = self.servants.len();
        let mut i: usize = 0;
        while i < n && i < 3
            invariant
                n == self.servants@.len(),
                i <= 3,
                i <= n,
                self.phase is CardSelection,
                self.available_cards == cards,
                self.selected_cards@.len() == 0,
                self.servants == old(self).servants,
                self.np_available@.len() == 3,
                self.target_enemy == old(self).target_enemy,
                self.master_skills == old(self).master_skills,
                self.current_wave == old(self).current_wave,
                forall|j: int| 0 <= j < i && j < n ==> #[trigger] self.np_available@[j]
                    == crate::servant::spec_can_np(old(self).servants@[j]),
                forall|j: int| i <= j < 3 ==> #[trigger] self.np_available@[j]
                    == old(self).np_available@[j],
                *self == (BattleState {
                    phase: self.phase,
                    available_cards: self.available_cards,
                    selected_cards: self.selected_cards,
                    np_available: self.np_available,
                    ..*old(self)
                }),
            decreases 3 - i,
        {
            let ready = self.servants[i].can_np();
            self.np_available[i] = ready;
            i = i + 1;
        }
    }

    /// Select a card, if fewer than three are selected.
    pub fn select_card(&mut self, card: Card) -> (ok: bool)
        ensures
            ok == (old(self).selected_cards@.len() < 3),
            ok ==> final(self).selected_cards@ == old(self).selected_cards@.push(card),
            !ok ==> final(self).selected_cards == old(self).selected_cards,
            *final(self) == (BattleState { selected_cards: final(self).selected_cards,
                ..*old(self) }),
    {
        if self.selected_cards.len() < 3 {
            self.selected_cards.push(card);
            true
        } else {
            false
        }
    }

    /// Select a servant's NP card. Succeeds only for a front-line slot whose
    /// NP is available, while fewer than three cards are selected.
    pub fn select_np(&mut self, servant_idx: usize) -> (ok: bool)
        ensures
            ok == (servant_idx < 3 && old(self).np_available@[servant_idx as int]
                && old(self).selected_cards@.len() < 3),
            ok ==> {
                &&& final(self).selected_cards@ == old(self).selected_cards@.push(Card {
                    card_type: CardType::NP,
                    servant_idx,
                    position: (5 + servant_idx) as usize,
                    confidence: 1000u32,
                })
                &&& final(self).np_available@ == old(self).np_available@.update(
                    servant_idx as int, false)
            },
            !ok ==> *final(self) == *old(self),
            final(self).servants == old(self).servants,
            final(self).available_cards == old(self).available_cards,
            final(self).phase == old(self).phase,
    {
        if servant_idx < 3 && self.np_available[servant_idx] && self.selected_cards.len() < 3 {
            self.selected_cards.push(Card {
                card_type: CardType::NP,
                servant_idx,
                position: 5 + servant_idx,
                confidence: 1000,
            });
            self.np_available[servant_idx] = false;
            true
        } else {
            false
        }
    }

    /// Get the front-line servant at the given index.
    pub fn get_servant(&self, idx: usize) -> (r: Option<&Servant>)
        ensures
            idx < self.servants@.len() ==> (r matches Some(s) && *s == self.servants@[idx as int]),
            idx >= self.servants@.len() ==> r is None,
    {
        if idx < self.servants.len() {
            Some(&self.servants[idx])
        } else {
            None
        }
    }

    /// Get the alive front-line servants, in slot order.
    pub fn alive_servants(&self) -> (alive: Vec<Servant>)
        ensures
            alive@ == self.servants@.filter(|s: Servant| s.is_alive),
    {
        let mut alive: Vec<Servant> = Vec::new();
        let mut i: usize = 0;
        while i < self.servants.len()
            invariant
                i <= self.servants@.len(),
                alive@ == self.servants@.take(i as int).filter(|s: Servant| s.is_alive),
            decreases self.servants@.len() - i,
        {
            proof {
                reveal_with_fuel(Seq::<_>::filter, 2);
                assert(self.servants@.take(i + 1).drop_last() =~= self.servants@.take(i as int));
                assert(self.servants@.take(i + 1).last() == self.servants@[i as int]);
            }
            if self.servants[i].is_alive {
                alive.push(self.servants[i]);
            }
            i = i + 1;
        }
        proof {
            assert(self.servants@.take(self.servants@.len() as int) =~= self.servants@);
        }
        alive
    }

    /// Count the alive front-line servants.
    pub fn alive_servant_count(&self) -> (n: usize)
        ensures
            n == self.servants@.filter(|s: Servant| s.is_alive).len(),
    {
        let alive = self.alive_servants();
        alive.len()
    }

    /// Get the regular (non-NP) cards belonging to a specific servant.
    pub fn cards_for_servant(&self, servant_idx: usize) -> (cards: Vec<Card>)
        ensures
            cards@ == self.available_cards@.filter(
                |c: Card| c.servant_idx == servant_idx && !(c.card_type is NP)),
    {
        let mut cards: Vec<Card> = Vec::new();
        let mut i: usize = 0;
        while i < self.available_cards.len()
            invariant
                i <= self.available_cards@.len(),
                cards@ == self.available_cards@.take(i as int).filter(
                    |c: Card| c.servant_idx == servant_idx && !(c.card_type is NP)),
            decreases self.available_cards@.len() - i,
        {
            proof {
                reveal_with_fuel(Seq::<_>::filter, 2);
                assert(self.available_cards@.take(i + 1).drop_last()
                    =~= self.available_cards@.take(i as int));
                assert(self.available_cards@.take(i + 1).last()
                    == self.available_cards@[i as int]);
            }
            let c = self.available_cards[i];
            if c.servant_idx == servant_idx && !c.is_np() {
                cards.push(c);
            }
            i = i + 1;
        }
        proof {
            assert(self.available_cards@.take(self.available_cards@.len() as int)
                =~= self.available_cards@);
        }
        cards
    }

    /// Get the cards of a specific type.
    pub fn cards_of_type(&self, card_type: CardType) -> (cards: Vec<Card>)
        ensures
            cards@ == self.available_cards@.filter(|c: Card| c.card_type == card_type),
    {
        let mut cards: Vec<Card> = Vec::new();
        let mut i: usize = 0;
        while i < self.available_cards.len()
            invariant
                i <= self.available_cards@.len(),
                cards@ == self.available_cards@.take(i as int).filter(
                    |c: Card| c.card_type == card_type),
            decreases self.available_cards@.len() - i,
        {
            proof {
                reveal_with_fuel(Seq::<_>::filter, 2);
                assert(self.available_cards@.take(i + 1).drop_last()
                    =~= self.available_cards@.take(i as int));
                assert(self.available_cards@.take(i + 1).last()
                    == self.available_cards@[i as int]);
            }
            let c = self.available_cards[i];
            if c.card_type == card_type {
                cards.push(c);
            }
            i = i + 1;
        }
        proof {
            assert(self.available_cards@.take(self.available_cards@.len() as int)
                =~= self.available_cards@);
        }
        cards
    }

    /// Check if we're in the final wave.
    pub fn is_final_wave(&self) -> (r: bool)
        ensures
            r == (self.current_wave.wave_number == self.current_wave.total_waves),
    {
        self.current_wave.is_final_wave()
    }

    /// Advance to the next wave, if one remains.
    pub fn next_wave(&mut self)
        ensures
            old(self).current_wave.wave_number + 1 <= old(self).total_waves ==> {
                &&& final(self).current_wave.wave_number
                    == old(self).current_wave.wave_number + 1
                &&& final(self).current_wave.total_waves == old(self).total_waves
                &&& final(self).current_wave.enemies@.len() == 0
            },
            old(self).current_wave.wave_number + 1 > old(self).total_waves
                ==> final(self).current_wave == old(self).current_wave,
            *final(self) == (BattleState { current_wave: final(self).current_wave,
                ..*old(self) }),
    {
        if self.current_wave.wave_number < u32::MAX {
            let next_wave_num = self.current_wave.wave_number + 1;
            if next_wave_num <= self.total_waves {
                self.current_wave = EnemyWave::new(next_wave_num, self.total_waves);
            }
        }
    }

    /// Use a servant skill, putting it on cooldown. Out-of-range indices are
    /// ignored.
    pub fn use_servant_skill(&mut self, servant_idx: usize, skill_idx: usize)
        ensures
            servant_idx < old(self).servants@.len() && skill_idx < 3 ==> {
                &&& final(self).servants@ == old(self).servants@.update(servant_idx as int,
                    final(self).servants@[servant_idx as int])
                &&& final(self).servants@[servant_idx as int].skills@
                    == old(self).servants@[servant_idx as int].skills@.update(skill_idx as int,
                        final(self).servants@[servant_idx as int].skills@[skill_idx as int])
                &&& final(self).servants@[servant_idx as int].skills@[skill_idx as int]
                    == (crate::servant::Skill {
                        cooldown: old(self).servants@[servant_idx as int].skills@[
                            skill_idx as int].max_cooldown,
                        ..old(self).servants@[servant_idx as int].skills@[skill_idx as int]
                    })
            },
            !(servant_idx < old(self).servants@.len() && skill_idx < 3)
                ==> final(self).servants == old(self).servants,
            *final(self) == (BattleState { servants: final(self).servants, ..*old(self) }),
    {
        if servant_idx < self.servants.len() && skill_idx < 3 {
            let mut s = self.servants[servant_idx];
            let mut sk = s.skills[skill_idx];
            sk.use_skill();
            s.skills[skill_idx] = sk;
            self.servants[servant_idx] = s;
        }
    }

    /// Calculate the total NP gauge of all front-line servants.
    pub fn total_np_gauge(&self) -> (total: u64)
        requires
            self.servants@.len() <= 3,
        ensures
            total == self.servants@.fold_left(0int, |acc: int, s: Servant| acc + s.np_gauge),
    {
        let mut total: u64 = 0;
        let mut i: usize = 0;
        while i < self.servants.len()
            invariant
                self.servants@.len() <= 3,
                i <= self.servants@.len(),
                total == self.servants@.take(i as int).fold_left(0int,
                    |acc: int, s: Servant| acc + s.np_gauge),
                total <= i * 0xffff_ffff,
            decreases self.servants@.len() - i,
        {
            proof {
                assert(self.servants@.take(i + 1).drop_last() =~= self.servants@.take(i as int));
            }
            total = total + (self.servants[i].np_gauge as u64);
            i = i + 1;
        }
        proof {
            assert(self.servants@.take(self.servants@.len() as int) =~= self.servants@);
        }
        total
    }

    /// Get the indices of front-line servants whose NP is ready.
    pub fn servants_with_np(&self) -> (r: Vec<usize>)
        ensures
            r@ == spec_servants_with_np(self.servants@),
            forall|k: int| 0 <= k < r@.len() ==> #[trigger] r@[k] < self.servants@.len()
                && crate::servant::spec_can_np(self.servants@[r@[k] as int]),
    {
        let mut r: Vec<usize> = Vec::new();
        let mut i: usize = 0;
        while i < self.servants.len()
            invariant
                i <= self.servants@.len(),
                r@ == spec_np_ready_indices(self.servants@, i as int),
            decreases self.servants@.len() - i,
        {
            if self.servants[i].can_np() {
                r.push(i);
            }
            i = i + 1;
        }
        proof {
            lemma_np_ready_indices_sound(self.servants@, self.servants@.len() as int);
        }
        r
    }
}

} // verus!
