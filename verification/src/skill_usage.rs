//! Skill usage: ranks servant-skill and master-skill recommendations for
//! the turn.
//!
//! Per alive servant, each ready skill is scored; recommendations below the
//! 0.5 significance threshold are dropped. Master skills have three fixed
//! slots: a party-wide buff, a single-target buff, and an inert utility
//! slot. The final list is ranked highest-priority first, ties keeping
//! discovery order.

use vstd::prelude::*;
use crate::battle::{BattleState, spec_master_skill_ready, spec_servants_with_np};
use crate::servant::{Servant, spec_can_np};
use crate::settings::Settings;
use crate::rank::{Scored, spec_sort_desc, sort_pairs_desc};

verus! {

/// Reason for a skill recommendation.
#[derive(Debug, Clone, Copy, PartialEq, Eq, Structural)]
pub enum SkillReason {
    /// Skill charges NP.
    NPCharge,
    /// Buff before NP usage.
    BuffBeforeNP,
    /// Defensive skill needed.
    Defensive,
    /// General utility.
    Utility,
    /// User-defined skill order.
    UserDefined,
}

/// Skill usage recommendation.
#[derive(Debug, Clone, Copy, PartialEq, Eq, Structural)]
pub struct SkillRecommendation {
    /// Servant index (0-2 for servant skills, 0 for master skills).
    pub servant_idx: usize,
    /// Skill index (0-2).
    pub skill_idx: usize,
    /// Target servant index (if applicable).
    pub target: Option<usize>,
    /// Priority score in thousandths (higher = use first).
    pub priority: u64,
    /// Whether this is a master skill.
    pub is_master_skill: bool,
    /// Reason for the recommendation.
    pub reason: SkillReason,
}

/// Skill decision engine, priorities in thousandths.
#[derive(Debug, Clone, Copy, PartialEq, Eq, Structural)]
pub struct SkillDecisionEngine {
    /// Priority for NP charge skills.
    pub np_charge_priority: u32,
    /// Priority for damage buff skills.
    pub damage_buff_priority: u32,
    /// Priority for defensive skills.
    pub defensive_priority: u32,
}

impl SkillDecisionEngine {
    /// The bounds the priority arithmetic relies on.
    pub open spec fn wf(&self) -> bool {
        &&& self.np_charge_priority <= 1000000
        &&& self.damage_buff_priority <= 1000000
        &&& self.defensive_priority <= 1000000
    }

    /// Create a new skill decision engine with the default priorities.
    pub fn new() -> (e: SkillDecisionEngine)
        ensures
            e == (SkillDecisionEngine {
                np_charge_priority: 2000u32,
                damage_buff_priority: 1500u32,
                defensive_priority: 1000u32,
            }),
            e.wf(),
    {
        SkillDecisionEngine {
            np_charge_priority: 2000,
            damage_buff_priority: 1500,
            defensive_priority: 1000,
        }
    }
}

/// The reason recorded for a skill: charging first, then buffing, else
/// utility.
pub open spec fn spec_skill_reason(is_np_charge: bool, is_damage_buff: bool) -> SkillReason {
    if is_np_charge {
        SkillReason::NPCharge
    } else if is_damage_buff {
        SkillReason::BuffBeforeNP
    } else {
        SkillReason::Utility
    }
}

/// The priority of one servant skill, in thousandths: a charge skill that
/// crosses the full-gauge threshold this turn scores triple, an otherwise
/// prioritized charge skill scores the base; a damage buff scores double on
/// the final wave or with the NP already ready.
pub open spec fn spec_skill_priority(
    e: SkillDecisionEngine,
    servant: Servant,
    skill_idx: int,
    state: BattleState,
    set: Settings,
) -> int {
    let skill = servant.skills[skill_idx];
    let charge_p: int = if skill.is_np_charge {
        if servant.np_gauge < 100 && servant.np_gauge + skill.np_charge_amount >= 100 {
            e.np_charge_priority * 3
        } else if set.skill_settings.np_charge_priority {
            e.np_charge_priority as int
        } else {
            0
        }
    } else {
        0
    };
    if skill.is_damage_buff {
        let final_wave = state.current_wave.wave_number == state.current_wave.total_waves;
        if final_wave || spec_can_np(servant) {
            e.damage_buff_priority * 2
        } else {
            e.damage_buff_priority as int
        }
    } else {
        charge_p
    }
}

/// The target a servant skill carries: itself, for a charge skill that
/// requires a target.
pub open spec fn spec_skill_target(servant: Servant, servant_idx: usize, skill_idx: int)
    -> Option<usize> {
    let skill = servant.skills[skill_idx];
    if skill.is_np_charge && skill.requires_target {
        Some(servant_idx)
    } else {
        None
    }
}

/// The recommendation one servant skill produces, if it clears the 0.5
/// threshold.
pub open spec fn spec_eval_skill(
    e: SkillDecisionEngine,
    servant: Servant,
    servant_idx: usize,
    skill_idx: int,
    state: BattleState,
    set: Settings,
) -> Option<SkillRecommendation> {
    let p = spec_skill_priority(e, servant, skill_idx, state, set);
    if p > 500 {
        Some(SkillRecommendation {
            servant_idx,
            skill_idx: skill_idx as usize,
            target: spec_skill_target(servant, servant_idx, skill_idx),
            priority: p as u64,
            is_master_skill: false,
            reason: spec_skill_reason(servant.skills[skill_idx].is_np_charge,
                servant.skills[skill_idx].is_damage_buff),
        })
    } else {
        None
    }
}

/// The index of the first servant whose NP is ready, scanning from slot
/// `i`.
pub open spec fn spec_first_np_ready_from(servants: Seq<Servant>, i: int) -> Option<usize>
    decreases servants.len() - i,
{
    if i < 0 || i >= servants.len() {
        None
    } else if spec_can_np(servants[i]) {
        Some(i as usize)
    } else {
        spec_first_np_ready_from(servants, i + 1)
    }
}

/// The recommendation one master-skill slot produces. Slot 0 is the
/// party-wide buff, worth using on the final wave with two NPs ready;
/// slot 1 buffs the first NP-ready servant; slot 2 is reserved and inert.
pub open spec fn spec_eval_master_skill(skill_idx: int, state: BattleState)
    -> Option<SkillRecommendation> {
    if skill_idx == 0 {
        let final_wave = state.current_wave.wave_number == state.current_wave.total_waves;
        if final_wave && spec_servants_with_np(state.servants@).len() >= 2 {
            Some(SkillRecommendation {
                servant_idx: 0,
                skill_idx: 0,
                target: None,
                priority: 2000,
                is_master_skill: true,
                reason: SkillReason::BuffBeforeNP,
            })
        } else {
            None
        }
    } else if skill_idx == 1 {
        match spec_first_np_ready_from(state.servants@, 0) {
            Some(dps) => Some(SkillRecommendation {
                servant_idx: 0,
                skill_idx: 1,
                target: Some(dps),
                priority: 1500,
                is_master_skill: true,
                reason: SkillReason::BuffBeforeNP,
            }),
            None => None,
        }
    } else {
        None
    }
}

/// The servant-skill candidates discovered up to servant `n`, skill `k`:
/// skills of alive servants that are ready and score over the threshold, in
/// discovery order.
pub open spec fn spec_servant_cands(
    e: SkillDecisionEngine,
    state: BattleState,
    set: Settings,
    n: int,
    k: int,
) -> Seq<SkillRecommendation>
    decreases n, k,
{
    if n <= 0 {
        Seq::empty()
    } else if k <= 0 {
        spec_servant_cands(e, state, set, n - 1, 3)
    } else {
        let prev = spec_servant_cands(e, state, set, n, k - 1);
        let servant = state.servants@[n - 1];
        if servant.is_alive && servant.skills[k - 1].cooldown == 0 {
            match spec_eval_skill(e, servant, (n - 1) as usize, k - 1, state, set) {
                Some(rec) => prev.push(rec),
                None => prev,
            }
        } else {
            prev
        }
    }
}

/// The master-skill candidates discovered up to slot `k`: ready slots whose
/// evaluation produced a recommendation.
pub open spec fn spec_master_cands(state: BattleState, k: int) -> Seq<SkillRecommendation>
    decreases k,
{
    if k <= 0 {
        Seq::empty()
    } else {
        let prev = spec_master_cands(state, k - 1);
        if spec_master_skill_ready(state.master_skills, (k - 1) as usize) {
            match spec_eval_master_skill(k - 1, state) {
                Some(rec) => prev.push(rec),
                None => prev,
            }
        } else {
            prev
        }
    }
}

/// All candidates in discovery order: servant skills first, then master
/// skills when enabled.
pub open spec fn spec_all_cands(
    e: SkillDecisionEngine,
    state: BattleState,
    set: Settings,
) -> Seq<SkillRecommendation> {
    spec_servant_cands(e, state, set, state.servants@.len() as int, 3)
        + (if set.skill_settings.use_master_skills {
            spec_master_cands(state, 3)
        } else {
            Seq::empty()
        })
}

/// The priority pairs of a candidate list, in discovery order.
pub open spec fn spec_cand_pairs(cands: Seq<SkillRecommendation>) -> Seq<Scored> {
    Seq::new(cands.len(), |i: int| (cands[i].priority, i as usize))
}

/// The final recommendation list: candidates ranked by priority, highest
/// first, ties keeping discovery order.
pub open spec fn spec_recommend_skills(
    e: SkillDecisionEngine,
    state: BattleState,
    set: Settings,
) -> Seq<SkillRecommendation> {
    let cands = spec_all_cands(e, state, set);
    spec_sort_desc(spec_cand_pairs(cands)).map_values(|p: Scored| cands[p.1 as int])
}

/// What every recommendation satisfies: it clears the significance
/// threshold, a servant skill names an alive servant's ready skill, and a
/// master skill names a ready slot.
pub open spec fn spec_rec_sound(rec: SkillRecommendation, state: BattleState) -> bool {
    &&& rec.priority > 500
    &&& !rec.is_master_skill ==> {
        &&& rec.servant_idx < state.servants@.len()
        &&& state.servants@[rec.servant_idx as int].is_alive
        &&& rec.skill_idx < 3
        &&& state.servants@[rec.servant_idx as int].skills[rec.skill_idx as int].cooldown
            == 0
    }
    &&& rec.is_master_skill ==> spec_master_skill_ready(state.master_skills, rec.skill_idx)
}

proof fn lemma_servant_cands_sound(
    e: SkillDecisionEngine,
    state: BattleState,
    set: Settings,
    n: int,
    k: int,
)
    requires
        n <= state.servants@.len(),
        state.servants@.len() <= usize::MAX,
        0 <= k <= 3,
    ensures
        forall|j: int| 0 <= j < spec_servant_cands(e, state, set, n, k).len()
            ==> spec_rec_sound(#[trigger] spec_servant_cands(e, state, set, n, k)[j], state),
    decreases n, k,
{
    if n > 0 {
        if k <= 0 {
            lemma_servant_cands_sound(e, state, set, n - 1, 3);
            let prev = spec_servant_cands(e, state, set, n - 1, 3);
            let cur = spec_servant_cands(e, state, set, n, k);
            assert forall|j: int| 0 <= j < cur.len() implies spec_rec_sound(
                #[trigger] cur[j], state) by {
                assert(cur[j] == prev[j]);
            }
        } else {
            lemma_servant_cands_sound(e, state, set, n, k - 1);
            let prev = spec_servant_cands(e, state, set, n, k - 1);
            let cur = spec_servant_cands(e, state, set, n, k);
            assert forall|j: int| 0 <= j < cur.len() implies spec_rec_sound(
                #[trigger] cur[j], state) by {
                if j < prev.len() {
                    assert(cur[j] == prev[j]);
                } else {
                    assert(cur[j] == cur.last());
                }
            }
        }
    }
}

proof fn lemma_master_cands_sound(state: BattleState, k: int)
    requires
        0 <= k <= 3,
    ensures
        forall|j: int| 0 <= j < spec_master_cands(state, k).len()
            ==> spec_rec_sound(#[trigger] spec_master_cands(state, k)[j], state),
    decreases k,
{
    if k > 0 {
        lemma_master_cands_sound(state, k - 1);
        let prev = spec_master_cands(state, k - 1);
        let cur = spec_master_cands(state, k);
        assert forall|j: int| 0 <= j < cur.len() implies spec_rec_sound(#[trigger] cur[j],
            state) by {
            if j < prev.len() {
                assert(cur[j] == prev[j]);
            } else {
                assert(cur[j] == cur.last());
            }
        }
    }
}

/// Every emitted recommendation is significant and ready: no skill on
/// cooldown and nothing at or below the 0.5 threshold is ever recommended.
pub proof fn lemma_recommend_skills_sound(
    e: SkillDecisionEngine,
    state: BattleState,
    set: Settings,
)
    requires
        state.servants@.len() <= usize::MAX,
    ensures
        forall|j: int| 0 <= j < spec_recommend_skills(e, state, set).len()
            ==> spec_rec_sound(#[trigger] spec_recommend_skills(e, state, set)[j], state),
{
    let cands = spec_all_cands(e, state, set);
    let pairs = spec_cand_pairs(cands);
    let sorted = spec_sort_desc(pairs);
    let result = spec_recommend_skills(e, state, set);
    lemma_servant_cands_sound(e, state, set, state.servants@.len() as int, 3);
    lemma_master_cands_sound(state, 3);
    crate::rank::lemma_sort_desc_sorted(pairs);
    assert forall|j: int| 0 <= j < result.len() implies spec_rec_sound(#[trigger] result[j],
        state) by {
        crate::rank::lemma_sort_desc_contains(pairs, j);
        let x = sorted[j];
        let m = choose|m: int| 0 <= m < pairs.len() && pairs[m] == x;
        assert(pairs[m].1 == m as usize);
        assert(result[j] == cands[x.1 as int]);
        let sc = spec_servant_cands(e, state, set, state.servants@.len() as int, 3);
        if x.1 < sc.len() {
            assert(cands[x.1 as int] == sc[x.1 as int]);
        } else {
            assert(cands[x.1 as int] == spec_master_cands(state, 3)[x.1 - sc.len()]);
        }
    }
}

impl SkillDecisionEngine {
    /// Evaluate one servant skill for usage.
    fn evaluate_skill(
        &self,
        servant_idx: usize,
        skill_idx: usize,
        servant: &Servant,
        state: &BattleState,
        settings: &Settings,
    ) -> (r: Option<SkillRecommendation>)
        requires
            self.wf(),
            skill_idx < 3,
        ensures
            r == spec_eval_skill(*self, *servant, servant_idx, skill_idx as int, *state,
                *settings),
    {
        let skill = servant.skills[skill_idx];
        let mut priority: u64 = 0;
        let mut target: Option<usize> = None;

        if skill.is_np_charge {
            let current_np = servant.np_gauge;
            let charge_amount = skill.np_charge_amount;
            if current_np < 100 && (current_np as u64) + (charge_amount as u64) >= 100 {
                priority = (self.np_charge_priority as u64) * 3;
            } else if settings.skill_settings.np_charge_priority {
                priority = self.np_charge_priority as u64;
            }
            if skill.requires_target {
                target = Some(servant_idx);
            }
        }

        if skill.is_damage_buff {
            if state.is_final_wave() || servant.can_np() {
                priority = (self.damage_buff_priority as u64) * 2;
            } else {
                priority = self.damage_buff_priority as u64;
            }
        }

        if priority > 500 {
            Some(SkillRecommendation {
                servant_idx,
                skill_idx,
                target,
                priority,
                is_master_skill: false,
                reason: self.get_skill_reason(skill.is_np_charge, skill.is_damage_buff),
            })
        } else {
            None
        }
    }

    /// Evaluate one master-skill slot for usage.
    fn evaluate_master_skill(&self, skill_idx: usize, state: &BattleState)
        -> (r: Option<SkillRecommendation>)
        ensures
            r == spec_eval_master_skill(skill_idx as int, *state),
    {
        if skill_idx == 0 {
            let nps = state.servants_with_np();
            if state.is_final_wave() && nps.len() >= 2 {
                Some(SkillRecommendation {
                    servant_idx: 0,
                    skill_idx: 0,
                    target: None,
                    priority: 2000,
                    is_master_skill: true,
                    reason: SkillReason::BuffBeforeNP,
                })
            } else {
                None
            }
        } else if skill_idx == 1 {
            let mut i: usize = 0;
            while i < state.servants.len()
                invariant
                    skill_idx == 1,
                    i <= state.servants@.len(),
                    spec_first_np_ready_from(state.servants@, 0)
                        == spec_first_np_ready_from(state.servants@, i as int),
                decreases state.servants@.len() - i,
            {
                if state.servants[i].can_np() {
                    proof {
                        assert(spec_first_np_ready_from(state.servants@, i as int)
                            == Some(i));
                    }
                    return Some(SkillRecommendation {
                        servant_idx: 0,
                        skill_idx: 1,
                        target: Some(i),
                        priority: 1500,
                        is_master_skill: true,
                        reason: SkillReason::BuffBeforeNP,
                    });
                }
                i = i + 1;
            }
            None
        } else {
            None
        }
    }

    /// Get the reason for skill usage.
    fn get_skill_reason(&self, is_np_charge: bool, is_damage_buff: bool) -> (r: SkillReason)
        ensures
            r == spec_skill_reason(is_np_charge, is_damage_buff),
    {
        if is_np_charge {
            SkillReason::NPCharge
        } else if is_damage_buff {
            SkillReason::BuffBeforeNP
        } else {
            SkillReason::Utility
        }
    }

    /// Recommend the skills to use this turn, ranked highest-priority
    /// first. Nothing on cooldown and nothing at or below the significance
    /// threshold is ever emitted.
    pub fn recommend_skills(&self, state: &BattleState, settings: &Settings)
        -> (r: Vec<SkillRecommendation>)
        requires
            self.wf(),
        ensures
            r@ == spec_recommend_skills(*self, *state, *settings),
            forall|j: int| 0 <= j < r@.len() ==> spec_rec_sound(#[trigger] r@[j], *state),
    {
        let mut cands: Vec<SkillRecommendation> = Vec::new();
        let n = state.servants.len();
        let mut si: usize = 0;
        while si < n
            invariant
                self.wf(),
                n == state.servants@.len(),
                si <= n,
                cands@ == spec_servant_cands(*self, *state, *settings, si as int, 3),
            decreases n - si,
        {
            let servant = &state.servants[si];
            if servant.is_alive {
                let mut ki: usize = 0;
                while ki < 3
                    invariant
                        self.wf(),
                        n == state.servants@.len(),
                        si < n,
                        ki <= 3,
                        state.servants@[si as int].is_alive,
                        cands@ == spec_servant_cands(*self, *state, *settings, si + 1,
                            ki as int),
                    decreases 3 - ki,
                {
                    let servant = &state.servants[si];
                    let skill = servant.skills[ki];
                    if skill.is_ready() {
                        match self.evaluate_skill(si, ki, servant, state, settings) {
                            Some(rec) => {
                                cands.push(rec);
                            }
                            None => {}
                        }
                    }
                    ki = ki + 1;
                }
            } else {
                proof {
                    lemma_servant_cands_skip_dead(*self, *state, *settings, si + 1, 3);
                }
            }
            si = si + 1;
        }
        if settings.skill_settings.use_master_skills {
            let ghost sc = spec_servant_cands(*self, *state, *settings,
                state.servants@.len() as int, 3);
            let mut mi: usize = 0;
            while mi < 3
                invariant
                    self.wf(),
                    mi <= 3,
                    sc == spec_servant_cands(*self, *state, *settings,
                        state.servants@.len() as int, 3),
                    cands@ == sc + spec_master_cands(*state, mi as int),
                decreases 3 - mi,
            {
                if state.master_skills.is_ready(mi) {
                    match self.evaluate_master_skill(mi, state) {
                        Some(rec) => {
                            cands.push(rec);
                            proof {
                                assert(cands@ =~= sc + spec_master_cands(*state, mi + 1));
                            }
                        }
                        None => {
                            proof {
                                assert(cands@ =~= sc + spec_master_cands(*state, mi + 1));
                            }
                        }
                    }
                } else {
                    proof {
                        assert(cands@ =~= sc + spec_master_cands(*state, mi + 1));
                    }
                }
                mi = mi + 1;
            }
        } else {
            proof {
                assert(cands@ =~= spec_all_cands(*self, *state, *settings));
            }
        }
        proof {
            assert(cands@ =~= spec_all_cands(*self, *state, *settings));
        }

        let ghost cands_spec = spec_all_cands(*self, *state, *settings);
        let mut pairs: Vec<Scored> = Vec::new();
        let mut i: usize = 0;
        while i < cands.len()
            invariant
                cands@ == cands_spec,
                i <= cands@.len(),
                pairs@ == spec_cand_pairs(cands_spec).take(i as int),
            decreases cands@.len() - i,
        {
            pairs.push((cands[i].priority, i));
            proof {
                assert(pairs@ =~= spec_cand_pairs(cands_spec).take(i + 1));
            }
            i = i + 1;
        }
        proof {
            assert(spec_cand_pairs(cands_spec).take(spec_cand_pairs(cands_spec).len() as int)
                =~= spec_cand_pairs(cands_spec));
        }
        let sorted = sort_pairs_desc(&pairs);
        let mut r: Vec<SkillRecommendation> = Vec::new();
        let mut k: usize = 0;
        while k < sorted.len()
            invariant
                cands@ == cands_spec,
                sorted@ == spec_sort_desc(spec_cand_pairs(cands_spec)),
                sorted@.len() == cands_spec.len(),
                k <= sorted@.len(),
                r@.len() == k,
                forall|j: int| 0 <= j < k ==> #[trigger] r@[j]
                    == cands_spec[sorted@[j].1 as int],
            decreases sorted@.len() - k,
        {
            proof {
                crate::rank::lemma_sort_desc_contains(spec_cand_pairs(cands_spec), k as int);
                let x = sorted@[k as int];
                let m = choose|m: int| 0 <= m < spec_cand_pairs(cands_spec).len()
                    && spec_cand_pairs(cands_spec)[m] == x;
                assert(spec_cand_pairs(cands_spec)[m].1 == m as usize);
            }
            let idx = sorted[k].1;
            r.push(cands[idx]);
            k = k + 1;
        }
        proof {
            assert(r@ =~= spec_recommend_skills(*self, *state, *settings));
            lemma_recommend_skills_sound(*self, *state, *settings);
        }
        r
    }

    /// Check if any skills should be used this turn: skill automation is
    /// on and some alive servant has a ready skill.
    pub fn should_use_skills(&self, state: &BattleState, settings: &Settings) -> (r: bool)
        ensures
            r == (settings.skill_settings.auto_use_skills && exists|i: int, k: int|
                0 <= i < state.servants@.len() && 0 <= k < 3
                    && state.servants@[i].is_alive
                    && (#[trigger] state.servants@[i].skills[k]).cooldown == 0),
    {
        if !settings.skill_settings.auto_use_skills {
            return false;
        }
        let mut i: usize = 0;
        while i < state.servants.len()
            invariant
                settings.skill_settings.auto_use_skills,
                i <= state.servants@.len(),
                forall|a: int, k: int| 0 <= a < i && 0 <= k < 3
                    ==> !(state.servants@[a].is_alive
                        && (#[trigger] state.servants@[a].skills[k]).cooldown == 0),
            decreases state.servants@.len() - i,
        {
            if state.servants[i].is_alive {
                let mut k: usize = 0;
                while k < 3
                    invariant
                        settings.skill_settings.auto_use_skills,
                        i < state.servants@.len(),
                        k <= 3,
                        state.servants@[i as int].is_alive,
                        forall|k2: int| 0 <= k2 < k
                            ==> state.servants@[i as int].skills[k2].cooldown != 0,
                    decreases 3 - k,
                {
                    if state.servants[i].skills[k].is_ready() {
                        proof {
                            assert(i < state.servants@.len() && k < 3
                                && state.servants@[i as int].is_alive
                                && state.servants@[i as int].skills[k as int].cooldown == 0);
                        }
                        return true;
                    }
                    k = k + 1;
                }
            }
            i = i + 1;
        }
        false
    }

    /// The user-supplied fixed skill order for the current wave, emitted at
    /// maximal priority; empty when the user defined none.
    pub fn get_wave_skill_order(&self, wave: u32, settings: &Settings)
        -> (r: Vec<SkillRecommendation>)
        ensures
            settings.skill_settings.skill_order is None ==> r@.len() == 0,
            settings.skill_settings.skill_order matches Some(order) ==> r@
                == spec_wave_skill_order(order@, wave, order@.len() as int),
    {
        match &settings.skill_settings.skill_order {
            Some(skill_order) => {
                let mut r: Vec<SkillRecommendation> = Vec::new();
                let mut i: usize = 0;
                while i < skill_order.len()
                    invariant
                        i <= skill_order@.len(),
                        r@ == spec_wave_skill_order(skill_order@, wave, i as int),
                    decreases skill_order@.len() - i,
                {
                    let cmd = &skill_order[i];
                    let matches_wave = match cmd.wave {
                        Some(w) => w == wave,
                        None => true,
                    };
                    if matches_wave {
                        r.push(SkillRecommendation {
                            servant_idx: cmd.servant,
                            skill_idx: cmd.skill,
                            target: cmd.target,
                            priority: 10000,
                            is_master_skill: false,
                            reason: SkillReason::UserDefined,
                        });
                    }
                    i = i + 1;
                }
                r
            }
            None => Vec::new(),
        }
    }
}

/// A skill-cand list never grows when the servant is dead.
proof fn lemma_servant_cands_skip_dead(
    e: SkillDecisionEngine,
    state: BattleState,
    set: Settings,
    n: int,
    k: int,
)
    requires
        0 < n <= state.servants@.len(),
        0 <= k <= 3,
        !state.servants@[n - 1].is_alive,
    ensures
        spec_servant_cands(e, state, set, n, k) == spec_servant_cands(e, state, set, n - 1, 3),
    decreases k,
{
    if k > 0 {
        lemma_servant_cands_skip_dead(e, state, set, n, k - 1);
    }
}

/// The user-defined commands kept for this wave, as recommendations, up to
/// index `n`.
pub open spec fn spec_wave_skill_order(
    order: Seq<crate::settings::SkillCommand>,
    wave: u32,
    n: int,
) -> Seq<SkillRecommendation>
    decreases n,
{
    if n <= 0 {
        Seq::empty()
    } else {
        let prev = spec_wave_skill_order(order, wave, n - 1);
        let cmd = order[n - 1];
        if cmd.wave == Some(wave) || cmd.wave is None {
            prev.push(SkillRecommendation {
                servant_idx: cmd.servant,
                skill_idx: cmd.skill,
                target: cmd.target,
                priority: 10000,
                is_master_skill: false,
                reason: SkillReason::UserDefined,
            })
        } else {
            prev
        }
    }
}

} // verus!
