//! The battle orchestrator: one snapshot in, exactly one action out.
//!
//! Branches on the battle phase and invokes the sub-engines in a fixed
//! order: skills, then targeting, then the ultimate decision, then card
//! selection. Retargeting is its own decision: when the prioritized target
//! differs from the recorded one, the retarget action is emitted alone and
//! cards are chosen on a later call.

use vstd::prelude::*;
use crate::ShebaAction;
use crate::battle::{BattlePhase, BattleState, spec_battle_wf};
use crate::card_selector::{CardSelector, spec_select_cards};
use crate::cards::Card;
use crate::enemy_priority::{EnemyPrioritizer, spec_prioritize};
use crate::np_timing::{NPTimingEngine, spec_decide_np_usage, lemma_decide_np_usage_sound};
use crate::settings::Settings;
use crate::skill_usage::{SkillDecisionEngine, spec_recommend_skills};
use crate::strategy::{BattleStrategy, StrategyType, spec_strategy};

verus! {

/// Main battle AI that coordinates all decision-making. An explicit
/// context value: it is constructed by the caller, holds no battle state,
/// and every call is independent.
#[derive(Debug, Clone, Copy)]
pub struct BattleAI {
    /// Card selection engine.
    pub card_selector: CardSelector,
    /// Enemy prioritization engine.
    pub enemy_prioritizer: EnemyPrioritizer,
    /// Skill decision engine.
    pub skill_engine: SkillDecisionEngine,
    /// NP timing engine.
    pub np_engine: NPTimingEngine,
    /// Current strategy.
    pub strategy: BattleStrategy,
}

impl BattleAI {
    /// The weight bounds every sub-engine relies on.
    pub open spec fn wf(&self) -> bool {
        &&& self.card_selector.wf()
        &&& self.enemy_prioritizer.wf()
        &&& self.skill_engine.wf()
        &&& self.np_engine.wf()
    }

    /// Create a new battle AI with the balanced strategy.
    pub fn new() -> (ai: BattleAI)
        ensures
            ai.card_selector == (CardSelector {
                chain_weight: 1500u32,
                brave_chain_weight: 1300u32,
                class_advantage_weight: 1200u32,
                first_card_weight: 1100u32,
            }),
            ai.enemy_prioritizer == (EnemyPrioritizer {
                hp_weight: 1000u32,
                class_advantage_weight: 1200u32,
                threat_weight: 1500u32,
                break_bar_weight: 800u32,
            }),
            ai.skill_engine == (SkillDecisionEngine {
                np_charge_priority: 2000u32,
                damage_buff_priority: 1500u32,
                defensive_priority: 1000u32,
            }),
            ai.np_engine == (NPTimingEngine {
                early_wave_threshold: 700u32,
                aoe_multi_enemy_bonus: 1500u32,
            }),
            ai.strategy == spec_strategy(StrategyType::Balanced),
            ai.wf(),
    {
        BattleAI {
            card_selector: CardSelector::new(),
            enemy_prioritizer: EnemyPrioritizer::new(),
            skill_engine: SkillDecisionEngine::new(),
            np_engine: NPTimingEngine::new(),
            strategy: BattleStrategy::new(StrategyType::Balanced),
        }
    }

    /// Create a battle AI with a specific strategy.
    pub fn with_strategy(strategy_type: StrategyType) -> (ai: BattleAI)
        ensures
            ai.card_selector == (CardSelector {
                chain_weight: 1500u32,
                brave_chain_weight: 1300u32,
                class_advantage_weight: 1200u32,
                first_card_weight: 1100u32,
            }),
            ai.enemy_prioritizer == (EnemyPrioritizer {
                hp_weight: 1000u32,
                class_advantage_weight: 1200u32,
                threat_weight: 1500u32,
                break_bar_weight: 800u32,
            }),
            ai.skill_engine == (SkillDecisionEngine {
                np_charge_priority: 2000u32,
                damage_buff_priority: 1500u32,
                defensive_priority: 1000u32,
            }),
            ai.np_engine == (NPTimingEngine {
                early_wave_threshold: 700u32,
                aoe_multi_enemy_bonus: 1500u32,
            }),
            ai.strategy == spec_strategy(strategy_type),
            ai.wf(),
    {
        BattleAI {
            card_selector: CardSelector::new(),
            enemy_prioritizer: EnemyPrioritizer::new(),
            skill_engine: SkillDecisionEngine::new(),
            np_engine: NPTimingEngine::new(),
            strategy: BattleStrategy::new(strategy_type),
        }
    }

    /// Set the battle strategy.
    pub fn set_strategy(&mut self, strategy_type: StrategyType)
        ensures
            *final(self) == (BattleAI { strategy: spec_strategy(strategy_type), ..*old(self) }),
    {
        self.strategy = BattleStrategy::new(strategy_type);
    }

    /// Decide the next action from the battle state and settings. Exactly
    /// one action per call, defined for every snapshot.
    pub fn decide_action(&self, state: &BattleState, settings: &Settings) -> (a: ShebaAction)
        requires
            self.wf(),
            spec_battle_wf(*state),
            forall|i: int| 0 <= i < state.current_wave.enemies@.len()
                ==> (#[trigger] state.current_wave.enemies@[i]).hp_permille <= 1000,
        ensures
            spec_is_decided_action(*self, *state, *settings, a),
    {
        match state.phase {
            BattlePhase::CommandPhase => {
                match self.decide_skill_usage(state, settings) {
                    Some(skill_action) => skill_action,
                    None => ShebaAction::TapAttack,
                }
            }
            BattlePhase::CardSelection => self.decide_card_selection(state, settings),
            BattlePhase::PreBattle | BattlePhase::Unknown => {
                ShebaAction::Wait { duration_ms: 500 }
            }
            BattlePhase::AttackPhase | BattlePhase::EnemyPhase => {
                ShebaAction::Wait { duration_ms: settings.timings.attack_wait }
            }
            BattlePhase::Victory | BattlePhase::Defeat => ShebaAction::NoOp,
        }
    }

    /// Decide which skill to use, if skill automation asks for one.
    fn decide_skill_usage(&self, state: &BattleState, settings: &Settings)
        -> (r: Option<ShebaAction>)
        requires
            self.wf(),
        ensures
            r == spec_decide_skill_usage(*self, *state, *settings),
    {
        if !settings.skill_settings.auto_use_skills {
            return None;
        }
        let recommendations = self.skill_engine.recommend_skills(state, settings);
        if recommendations.len() > 0 {
            let rec = recommendations[0];
            Some(ShebaAction::UseSkill {
                servant_idx: rec.servant_idx,
                skill_idx: rec.skill_idx,
                target: rec.target,
            })
        } else {
            None
        }
    }

    /// Decide the card-selection action: retarget first when the
    /// prioritized enemy differs from the recorded target, else assemble
    /// the play with NP slots ahead of regular card slots.
    fn decide_card_selection(&self, state: &BattleState, settings: &Settings)
        -> (a: ShebaAction)
        requires
            self.wf(),
            spec_battle_wf(*state),
            forall|i: int| 0 <= i < state.current_wave.enemies@.len()
                ==> (#[trigger] state.current_wave.enemies@[i]).hp_permille <= 1000,
        ensures
            spec_is_card_selection_decision(*self, *state, *settings, a),
    {
        let target_enemy = self.enemy_prioritizer.prioritize(&state.current_wave,
            state.servants.as_slice(), settings);
        let np_decisions = self.np_engine.decide_np_usage(state, settings);
        let card_selection = self.card_selector.select_cards(
            state.available_cards.as_slice(), state.servants.as_slice(), &state.current_wave,
            np_decisions.as_slice(), settings);

        if card_selection.len() > 0 {
            if let Some(enemy_idx) = target_enemy {
                let differs = match state.target_enemy {
                    Some(t) => t != enemy_idx,
                    None => true,
                };
                if differs {
                    return ShebaAction::TargetEnemy { enemy_idx };
                }
            }

            let mut card_indices: Vec<usize> = Vec::new();
            let mut i: usize = 0;
            while i < np_decisions.len()
                invariant
                    np_decisions@ == spec_decide_np_usage(self.np_engine, *state, *settings),
                    state.servants@.len() <= 3,
                    i <= np_decisions@.len(),
                    card_indices@ == spec_np_slots(np_decisions@, *state, i as int),
                    card_indices@.len() <= i,
                decreases np_decisions@.len() - i,
            {
                proof {
                    lemma_decide_np_usage_sound(self.np_engine, *state, *settings);
                }
                let servant_idx = np_decisions[i];
                if state.np_available[servant_idx] {
                    card_indices.push(5 + servant_idx);
                }
                i = i + 1;
            }
            proof {
                lemma_decide_np_usage_sound(self.np_engine, *state, *settings);
                assert(np_decisions@.len() <= 3);
            }

            let ghost after_np = card_indices@;
            let mut i: usize = 0;
            while i < card_selection.len()
                invariant
                    i <= card_selection@.len(),
                    card_indices@ == spec_card_slots(after_np, card_selection@, i as int),
                    card_indices@.len() >= after_np.len(),
                    card_indices@.len() <= after_np.len() + i,
                decreases card_selection@.len() - i,
            {
                if card_indices.len() < 3 {
                    card_indices.push(card_selection[i].position);
                }
                i = i + 1;
            }

            let ghost after_cards = card_indices@;
            let avail_len = state.available_cards.len();
            while card_indices.len() < 3 && card_indices.len() < avail_len
                invariant
                    avail_len == state.available_cards@.len(),
                    spec_pad_slots(card_indices@, avail_len as int) == spec_pad_slots(
                        after_cards, avail_len as int),
                ensures
                    spec_pad_slots(card_indices@, avail_len as int) == spec_pad_slots(
                        after_cards, avail_len as int),
                    card_indices@.len() >= 3 || card_indices@.len() >= avail_len
                        || spec_first_missing_slot(card_indices@) is None,
                decreases 3 - card_indices@.len(),
            {
                match first_missing_slot(&card_indices) {
                    Some(slot) => {
                        card_indices.push(slot);
                    }
                    None => {
                        break;
                    }
                }
            }
            proof {
                assert(card_indices@ == spec_pad_slots(after_cards, avail_len as int));
            }

            ShebaAction::SelectCards { card_indices }
        } else {
            ShebaAction::Wait { duration_ms: 500 }
        }
    }

    /// Get the card selector.
    pub fn card_selector(&self) -> (r: &CardSelector)
        ensures
            *r == self.card_selector,
    {
        &self.card_selector
    }

    /// Get the enemy prioritizer.
    pub fn enemy_prioritizer(&self) -> (r: &EnemyPrioritizer)
        ensures
            *r == self.enemy_prioritizer,
    {
        &self.enemy_prioritizer
    }

    /// Get the skill engine.
    pub fn skill_engine(&self) -> (r: &SkillDecisionEngine)
        ensures
            *r == self.skill_engine,
    {
        &self.skill_engine
    }

    /// Get the NP engine.
    pub fn np_engine(&self) -> (r: &NPTimingEngine)
        ensures
            *r == self.np_engine,
    {
        &self.np_engine
    }
}

/// The skill action the command phase takes, when automation is on and a
/// recommendation exists: the top recommendation as a skill use.
pub open spec fn spec_decide_skill_usage(
    ai: BattleAI,
    state: BattleState,
    set: Settings,
) -> Option<ShebaAction> {
    if !set.skill_settings.auto_use_skills {
        None
    } else {
        let recs = spec_recommend_skills(ai.skill_engine, state, set);
        if recs.len() > 0 {
            Some(ShebaAction::UseSkill {
                servant_idx: recs[0].servant_idx,
                skill_idx: recs[0].skill_idx,
                target: recs[0].target,
            })
        } else {
            None
        }
    }
}

/// The NP slots placed first: `5 + unit` for each decided NP whose slot is
/// still available.
pub open spec fn spec_np_slots(np: Seq<usize>, state: BattleState, n: int) -> Seq<usize>
    decreases n,
{
    if n <= 0 {
        Seq::empty()
    } else {
        let prev = spec_np_slots(np, state, n - 1);
        let idx = np[n - 1];
        if state.np_available@[idx as int] {
            prev.push((5 + idx) as usize)
        } else {
            prev
        }
    }
}

/// The regular card slots appended while fewer than three entries stand.
pub open spec fn spec_card_slots(acc: Seq<usize>, cards: Seq<Card>, n: int) -> Seq<usize>
    decreases n,
{
    if n <= 0 {
        acc
    } else {
        let prev = spec_card_slots(acc, cards, n - 1);
        if prev.len() < 3 {
            prev.push(cards[n - 1].position)
        } else {
            prev
        }
    }
}

/// The smallest card slot 0-4 not yet selected.
pub open spec fn spec_first_missing_slot(acc: Seq<usize>) -> Option<usize> {
    if !acc.contains(0usize) {
        Some(0usize)
    } else if !acc.contains(1usize) {
        Some(1usize)
    } else if !acc.contains(2usize) {
        Some(2usize)
    } else if !acc.contains(3usize) {
        Some(3usize)
    } else if !acc.contains(4usize) {
        Some(4usize)
    } else {
        None
    }
}

/// Padding: not-yet-chosen low card slots are appended until three entries
/// stand, while entries remain below the available-card count.
pub open spec fn spec_pad_slots(acc: Seq<usize>, avail_len: int) -> Seq<usize>
    decreases 3 - acc.len(),
{
    if acc.len() >= 3 || acc.len() >= avail_len {
        acc
    } else {
        match spec_first_missing_slot(acc) {
            Some(slot) => spec_pad_slots(acc.push(slot), avail_len),
            None => acc,
        }
    }
}

/// The complete index list of a card-selection action.
pub open spec fn spec_build_card_indices(
    np: Seq<usize>,
    cards: Seq<Card>,
    state: BattleState,
) -> Seq<usize> {
    let with_np = spec_np_slots(np, state, np.len() as int);
    let with_cards = spec_card_slots(with_np, cards, cards.len() as int);
    spec_pad_slots(with_cards, state.available_cards@.len() as int)
}

/// The card-selection decision: a defined wait without cards; a retarget
/// when the prioritized enemy differs from the recorded target; otherwise
/// the assembled play. Holds of exactly the emitted action.
pub open spec fn spec_is_card_selection_decision(
    ai: BattleAI,
    state: BattleState,
    set: Settings,
    a: ShebaAction,
) -> bool {
    let target = spec_prioritize(ai.enemy_prioritizer, state.current_wave.enemies@,
        state.servants@, set);
    let np = spec_decide_np_usage(ai.np_engine, state, set);
    let cards = spec_select_cards(ai.card_selector, state.available_cards@, state.servants@,
        state.current_wave.enemies@, np, set);
    if cards.len() > 0 {
        match target {
            Some(enemy_idx) => {
                if state.target_enemy != Some(enemy_idx) {
                    a == (ShebaAction::TargetEnemy { enemy_idx })
                } else {
                    a matches ShebaAction::SelectCards { card_indices } && card_indices@
                        == spec_build_card_indices(np, cards, state)
                }
            }
            None => {
                a matches ShebaAction::SelectCards { card_indices } && card_indices@
                    == spec_build_card_indices(np, cards, state)
            }
        }
    } else {
        a == (ShebaAction::Wait { duration_ms: 500u32 })
    }
}

/// The action every snapshot resolves to, by phase: the skill or advance
/// action in the command phase, the card-selection decision, a wait around
/// animations and before battle, and nothing once the battle ended. Holds
/// of exactly the emitted action.
pub open spec fn spec_is_decided_action(
    ai: BattleAI,
    state: BattleState,
    set: Settings,
    a: ShebaAction,
) -> bool {
    match state.phase {
        BattlePhase::CommandPhase => {
            match spec_decide_skill_usage(ai, state, set) {
                Some(skill_action) => a == skill_action,
                None => a == ShebaAction::TapAttack,
            }
        }
        BattlePhase::CardSelection => spec_is_card_selection_decision(ai, state, set, a),
        BattlePhase::PreBattle | BattlePhase::Unknown => a == (ShebaAction::Wait {
            duration_ms: 500u32,
        }),
        BattlePhase::AttackPhase | BattlePhase::EnemyPhase => a == (ShebaAction::Wait {
            duration_ms: set.timings.attack_wait,
        }),
        BattlePhase::Victory | BattlePhase::Defeat => a == ShebaAction::NoOp,
    }
}

/// Retargeting precedes card selection: whenever the card-selection phase
/// computes a target that differs from the recorded one and cards are
/// playable, the decision is exactly the retarget action, and no
/// card-selection action is emitted in the same call.
pub proof fn lemma_retarget_precedes_cards(
    ai: BattleAI,
    state: BattleState,
    set: Settings,
    enemy_idx: usize,
    a: ShebaAction,
)
    requires
        state.phase is CardSelection,
        spec_prioritize(ai.enemy_prioritizer, state.current_wave.enemies@, state.servants@,
            set) == Some(enemy_idx),
        state.target_enemy != Some(enemy_idx),
        spec_select_cards(ai.card_selector, state.available_cards@, state.servants@,
            state.current_wave.enemies@, spec_decide_np_usage(ai.np_engine, state, set),
            set).len() > 0,
        spec_is_decided_action(ai, state, set, a),
    ensures
        a == (ShebaAction::TargetEnemy { enemy_idx }),
        !(a is SelectCards),
{
}

fn first_missing_slot(acc: &Vec<usize>) -> (r: Option<usize>)
    ensures
        r == spec_first_missing_slot(acc@),
{
    if !contains_slot(acc, 0) {
        Some(0)
    } else if !contains_slot(acc, 1) {
        Some(1)
    } else if !contains_slot(acc, 2) {
        Some(2)
    } else if !contains_slot(acc, 3) {
        Some(3)
    } else if !contains_slot(acc, 4) {
        Some(4)
    } else {
        None
    }
}

fn contains_slot(acc: &Vec<usize>, v: usize) -> (r: bool)
    ensures
        r == acc@.contains(v),
{
    let mut i: usize = 0;
    while i < acc.len()
        invariant
            i <= acc@.len(),
            forall|j: int| 0 <= j < i ==> acc@[j] != v,
        decreases acc@.len() - i,
    {
        if acc[i] == v {
            return true;
        }
        i = i + 1;
    }
    false
}

} // verus!
