//! Noble Phantasm timing: which units fire their NP this turn, and in what
//! order.
//!
//! Eligible units are scored, low scores dropped, the best three kept, and
//! the kept set re-ordered by NP card type for chain sequencing: Arts first
//! for the gauge refund, Quick next, Buster last for the damage payoff.

use vstd::prelude::*;
use crate::battle::BattleState;
use crate::enemy::{Enemy, spec_alive_enemies};
use crate::servant::{NPType, Servant, spec_advantage, spec_overcharge_level};
use crate::settings::Settings;
use crate::rank::{Scored, mul_milli, spec_sort_desc, sort_pairs_desc};

verus! {

/// NP timing decision engine, weights in thousandths.
#[derive(Debug, Clone, Copy, PartialEq, Eq, Structural)]
pub struct NPTimingEngine {
    /// Damping applied to NP scores on non-final waves.
    pub early_wave_threshold: u32,
    /// Score bonus when more than one enemy is alive.
    pub aoe_multi_enemy_bonus: u32,
}

impl NPTimingEngine {
    /// The bounds the scoring arithmetic relies on; early-wave damping
    /// never amplifies.
    pub open spec fn wf(&self) -> bool {
        &&& self.early_wave_threshold <= 1000
        &&& self.aoe_multi_enemy_bonus <= 10000
    }

    /// Create a new NP timing engine with the default weights.
    pub fn new() -> (e: NPTimingEngine)
        ensures
            e == (NPTimingEngine {
                early_wave_threshold: 700u32,
                aoe_multi_enemy_bonus: 1500u32,
            }),
            e.wf(),
    {
        NPTimingEngine { early_wave_threshold: 700, aoe_multi_enemy_bonus: 1500 }
    }
}

/// Whether any alive enemy takes extra damage from this servant's class.
pub open spec fn spec_has_advantage(s: Servant, enemies: Seq<Enemy>) -> bool {
    exists|i: int|
        0 <= i < spec_alive_enemies(enemies).len() && spec_advantage(s.class,
            (#[trigger] spec_alive_enemies(enemies)[i]).class) > 1000
}

/// The NP usage score of a servant, in thousandths: points for a gauge over
/// the configured threshold, for the final wave and for multiple enemies;
/// multipliers for class advantage, stacked buffs and overcharge; damping
/// off the final wave.
pub open spec fn spec_np_score(
    e: NPTimingEngine,
    s: Servant,
    state: BattleState,
    set: Settings,
) -> int {
    let final_wave = state.current_wave.wave_number == state.current_wave.total_waves;
    let base = (if s.np_gauge >= set.np_threshold { 1000int } else { 0int })
        + (if final_wave { 2000int } else { 0int })
        + (if spec_alive_enemies(state.current_wave.enemies@).len() > 1 {
            e.aoe_multi_enemy_bonus as int
        } else {
            0int
        });
    let s1 = if spec_has_advantage(s, state.current_wave.enemies@) {
        base * 1300 / 1000
    } else {
        base
    };
    let s2 = if s.buff_count > 0 { s1 * (1000 + s.buff_count * 200) / 1000 } else { s1 };
    let s3 = if s.np_gauge >= 200 { s2 * 1100 / 1000 } else { s2 };
    if !final_wave { s3 * e.early_wave_threshold / 1000 } else { s3 }
}

fn has_advantage(s: &Servant, wave_enemies: &Vec<Enemy>) -> (r: bool)
    ensures
        r == spec_has_advantage(*s, wave_enemies@),
{
    let mut i: usize = 0;
    while i < wave_enemies.len()
        invariant
            i <= wave_enemies@.len(),
            forall|k: int| 0 <= k < spec_alive_enemies(wave_enemies@.take(i as int)).len()
                ==> spec_advantage(s.class, (#[trigger] spec_alive_enemies(
                    wave_enemies@.take(i as int))[k]).class) <= 1000,
        decreases wave_enemies@.len() - i,
    {
        proof {
            reveal_with_fuel(Seq::<_>::filter, 2);
            assert(wave_enemies@.take(i + 1).drop_last() =~= wave_enemies@.take(i as int));
            assert(wave_enemies@.take(i + 1).last() == wave_enemies@[i as int]);
        }
        let en = &wave_enemies[i];
        if en.is_alive && s.class.advantage_against(&en.class) > 1000 {
            proof {
                wave_enemies@.lemma_filter_contains(|e: Enemy| e.is_alive, i as int);
                let alive = spec_alive_enemies(wave_enemies@);
                assert(alive.contains(wave_enemies@[i as int]));
                let k = choose|k: int| 0 <= k < alive.len() && alive[k]
                    == wave_enemies@[i as int];
                assert(spec_advantage(s.class, alive[k].class) > 1000);
            }
            return true;
        }
        proof {
            let prev = spec_alive_enemies(wave_enemies@.take(i as int));
            let cur = spec_alive_enemies(wave_enemies@.take(i + 1));
            if en.is_alive {
                assert(cur == prev.push(wave_enemies@[i as int]));
                assert forall|k: int| 0 <= k < cur.len() implies spec_advantage(s.class,
                    (#[trigger] cur[k]).class) <= 1000 by {
                    if k < prev.len() {
                        assert(cur[k] == prev[k]);
                    } else {
                        assert(cur[k] == wave_enemies@[i as int]);
                    }
                }
            } else {
                assert(cur == prev);
            }
        }
        i = i + 1;
    }
    proof {
        assert(wave_enemies@.take(wave_enemies@.len() as int) =~= wave_enemies@);
    }
    false
}

/// The scored NP candidates below index `n`, in slot order: a slot whose
/// servant's NP is ready and available, and whose score clears the 0.5
/// significance threshold.
pub open spec fn spec_np_pairs(
    e: NPTimingEngine,
    state: BattleState,
    set: Settings,
    n: int,
) -> Seq<Scored>
    decreases n,
{
    if n <= 0 {
        Seq::empty()
    } else {
        let prev = spec_np_pairs(e, state, set, n - 1);
        let idx = n - 1;
        let s = state.servants@[idx];
        if crate::servant::spec_can_np(s) && state.np_available@[idx]
            && spec_np_score(e, s, state, set) > 500 {
            prev.push((spec_np_score(e, s, state, set) as u64, idx as usize))
        } else {
            prev
        }
    }
}

/// The kept NP users whose servant's NP card is of the given type, in
/// kept order.
pub open spec fn spec_np_users_of_type(order: Seq<usize>, servants: Seq<Servant>, t: NPType)
    -> Seq<usize> {
    order.filter(|i: usize| i < servants.len() && servants[i as int].np_type == t)
}

/// Re-order the kept NP users by NP card type: Arts, then Quick, then
/// Buster. With fewer than two users the order stands; the re-ordering
/// applies only when it accounts for every kept user.
pub open spec fn spec_optimize_np_order(order: Seq<usize>, servants: Seq<Servant>)
    -> Seq<usize> {
    if order.len() < 2 {
        order
    } else {
        let optimized = spec_np_users_of_type(order, servants, NPType::Arts)
            + spec_np_users_of_type(order, servants, NPType::Quick)
            + spec_np_users_of_type(order, servants, NPType::Buster);
        if optimized.len() == order.len() {
            optimized
        } else {
            order
        }
    }
}

/// The NP users this turn: the scored candidates ranked highest-first (ties
/// by slot), capped at three, re-ordered for chain sequencing.
pub open spec fn spec_decide_np_usage(
    e: NPTimingEngine,
    state: BattleState,
    set: Settings,
) -> Seq<usize> {
    let pairs = spec_np_pairs(e, state, set, state.servants@.len() as int);
    let sorted = spec_sort_desc(pairs);
    let kept = if sorted.len() <= 3 { sorted } else { sorted.take(3) };
    spec_optimize_np_order(kept.map_values(|p: Scored| p.1), state.servants@)
}

/// Every scored candidate names a front-line slot whose NP is ready and
/// available.
proof fn lemma_np_pairs_sound(e: NPTimingEngine, state: BattleState, set: Settings, n: int)
    requires
        n <= state.servants@.len(),
        state.servants@.len() <= 3,
    ensures
        forall|k: int| 0 <= k < spec_np_pairs(e, state, set, n).len() ==> {
            let p = #[trigger] spec_np_pairs(e, state, set, n)[k];
            &&& p.1 < n
            &&& crate::servant::spec_can_np(state.servants@[p.1 as int])
            &&& state.np_available@[p.1 as int]
        },
    decreases n,
{
    if n > 0 {
        lemma_np_pairs_sound(e, state, set, n - 1);
        let prev = spec_np_pairs(e, state, set, n - 1);
        let cur = spec_np_pairs(e, state, set, n);
        if cur.len() > prev.len() {
            assert forall|k: int| 0 <= k < cur.len() implies {
                let p = #[trigger] cur[k];
                &&& p.1 < n
                &&& crate::servant::spec_can_np(state.servants@[p.1 as int])
                &&& state.np_available@[p.1 as int]
            } by {
                if k < prev.len() {
                    assert(cur[k] == prev[k]);
                } else {
                    assert(cur[k] == (spec_np_score(e, state.servants@[n - 1], state,
                        set) as u64, (n - 1) as usize));
                }
            }
        }
    }
}

/// The per-type selection keeps only entries of the kept order.
proof fn lemma_np_users_of_type_from(order: Seq<usize>, servants: Seq<Servant>, t: NPType)
    ensures
        forall|i: int| 0 <= i < spec_np_users_of_type(order, servants, t).len()
            ==> order.contains(#[trigger] spec_np_users_of_type(order, servants, t)[i]),
    decreases order.len(),
{
    reveal_with_fuel(Seq::<_>::filter, 2);
    if order.len() > 0 {
        lemma_np_users_of_type_from(order.drop_last(), servants, t);
        let prev = spec_np_users_of_type(order.drop_last(), servants, t);
        let cur = spec_np_users_of_type(order, servants, t);
        assert forall|i: int| 0 <= i < cur.len() implies order.contains(
            #[trigger] cur[i]) by {
            if cur.len() > prev.len() && i == cur.len() - 1 {
                assert(cur[i] == order.last());
                assert(order[order.len() - 1] == order.last());
            } else {
                assert(cur[i] == prev[i]);
                assert(order.drop_last().contains(prev[i]));
                let j = choose|j: int| 0 <= j < order.drop_last().len()
                    && order.drop_last()[j] == prev[i];
                assert(order[j] == prev[i]);
            }
        }
    }
}

/// The decided NP users keep the candidates' soundness: every index names a
/// distinct front-line slot whose NP is ready and available.
pub proof fn lemma_decide_np_usage_sound(e: NPTimingEngine, state: BattleState, set: Settings)
    requires
        state.servants@.len() <= 3,
    ensures
        spec_decide_np_usage(e, state, set).len() <= 3,
        forall|k: int| 0 <= k < spec_decide_np_usage(e, state, set).len() ==> {
            let idx = #[trigger] spec_decide_np_usage(e, state, set)[k];
            &&& idx < state.servants@.len()
            &&& crate::servant::spec_can_np(state.servants@[idx as int])
            &&& state.np_available@[idx as int]
        },
{
    let n = state.servants@.len() as int;
    let pairs = spec_np_pairs(e, state, set, n);
    let sorted = spec_sort_desc(pairs);
    let kept = if sorted.len() <= 3 { sorted } else { sorted.take(3) };
    let order = kept.map_values(|p: Scored| p.1);
    lemma_np_pairs_sound(e, state, set, n);
    crate::rank::lemma_sort_desc_sorted(pairs);
    assert forall|k: int| 0 <= k < order.len() implies {
        let idx = #[trigger] order[k];
        &&& idx < state.servants@.len()
        &&& crate::servant::spec_can_np(state.servants@[idx as int])
        &&& state.np_available@[idx as int]
    } by {
        crate::rank::lemma_sort_desc_contains(pairs, k);
        let x = sorted[k];
        assert(order[k] == kept[k].1 && kept[k] == sorted[k]);
        let j = choose|j: int| 0 <= j < pairs.len() && pairs[j] == x;
    }
    let result = spec_optimize_np_order(order, state.servants@);
    if order.len() >= 2 {
        let arts = spec_np_users_of_type(order, state.servants@, NPType::Arts);
        let quick = spec_np_users_of_type(order, state.servants@, NPType::Quick);
        let buster = spec_np_users_of_type(order, state.servants@, NPType::Buster);
        lemma_np_users_of_type_from(order, state.servants@, NPType::Arts);
        lemma_np_users_of_type_from(order, state.servants@, NPType::Quick);
        lemma_np_users_of_type_from(order, state.servants@, NPType::Buster);
        let optimized = arts + quick + buster;
        if optimized.len() == order.len() {
            assert forall|k: int| 0 <= k < result.len() implies {
                let idx = #[trigger] result[k];
                &&& idx < state.servants@.len()
                &&& crate::servant::spec_can_np(state.servants@[idx as int])
                &&& state.np_available@[idx as int]
            } by {
                let idx = result[k];
                if k < arts.len() {
                    assert(result[k] == arts[k]);
                    assert(order.contains(arts[k]));
                } else if k < arts.len() + quick.len() {
                    assert(result[k] == quick[k - arts.len()]);
                    assert(order.contains(quick[k - arts.len()]));
                } else {
                    assert(result[k] == buster[k - arts.len() - quick.len()]);
                    assert(order.contains(buster[k - arts.len() - quick.len()]));
                }
                let j = choose|j: int| 0 <= j < order.len() && order[j] == idx;
            }
        }
    }
}

impl NPTimingEngine {
    /// Score NP usage for a servant, in thousandths.
    fn score_np_usage(&self, servant: &Servant, state: &BattleState, settings: &Settings)
        -> (s: u64)
        requires
            self.wf(),
        ensures
            s == spec_np_score(*self, *servant, *state, *settings),
            s <= 0x2000_0000_0000,
    {
        let final_wave = state.is_final_wave();
        let mut score: u64 = 0;
        if servant.np_gauge >= settings.np_threshold {
            score = score + 1000;
        }
        if final_wave {
            score = score + 2000;
        }
        if state.current_wave.alive_count() > 1 {
            score = score + (self.aoe_multi_enemy_bonus as u64);
        }
        if has_advantage(servant, &state.current_wave.enemies) {
            score = mul_milli(score, 1300);
        }
        if servant.buff_count > 0 {
            let factor: u64 = 1000 + (servant.buff_count as u64) * 200;
            proof {
                assert(score * factor <= 26000 * 860000000000u64) by (nonlinear_arith)
                    requires score <= 26000, factor <= 860000000000u64;
            }
            score = score * factor / 1000;
        }
        if servant.np_gauge >= 200 {
            score = mul_milli(score, 1100);
        }
        if !final_wave {
            score = mul_milli(score, self.early_wave_threshold as u64);
        }
        score
    }

    /// Decide which servants use their NP this turn, in firing order.
    pub fn decide_np_usage(&self, state: &BattleState, settings: &Settings) -> (r: Vec<usize>)
        requires
            self.wf(),
            state.servants@.len() <= 3,
        ensures
            r@ == spec_decide_np_usage(*self, *state, *settings),
            r@.len() <= 3,
            forall|k: int| 0 <= k < r@.len() ==> {
                let idx = #[trigger] r@[k];
                &&& idx < state.servants@.len()
                &&& crate::servant::spec_can_np(state.servants@[idx as int])
                &&& state.np_available@[idx as int]
            },
    {
        let n = state.servants.len();
        let mut pairs: Vec<Scored> = Vec::new();
        let mut i: usize = 0;
        while i < n
            invariant
                self.wf(),
                n == state.servants@.len(),
                n <= 3,
                i <= n,
                pairs@ == spec_np_pairs(*self, *state, *settings, i as int),
            decreases n - i,
        {
            let s = &state.servants[i];
            if s.can_np() && state.np_available[i] {
                let score = self.score_np_usage(s, state, settings);
                if score > 500 {
                    pairs.push((score, i));
                }
            }
            i = i + 1;
        }
        let sorted = sort_pairs_desc(&pairs);
        let mut np_users: Vec<usize> = Vec::new();
        let ghost kept = if sorted@.len() <= 3 { sorted@ } else { sorted@.take(3) };
        let mut k: usize = 0;
        while k < sorted.len() && k < 3
            invariant
                sorted@ == spec_sort_desc(spec_np_pairs(*self, *state, *settings,
                    state.servants@.len() as int)),
                kept == (if sorted@.len() <= 3 { sorted@ } else { sorted@.take(3) }),
                k <= 3,
                k <= sorted@.len(),
                np_users@ == kept.take(k as int).map_values(|p: Scored| p.1),
            decreases 3 - k,
        {
            np_users.push(sorted[k].1);
            proof {
                assert(kept.take(k + 1).drop_last() =~= kept.take(k as int));
                assert(np_users@ =~= kept.take(k + 1).map_values(|p: Scored| p.1));
            }
            k = k + 1;
        }
        proof {
            assert(kept.take(kept.len() as int) =~= kept);
            if sorted@.len() > 3 {
                assert(kept.take(3) =~= kept);
            }
            assert(np_users@ == kept.map_values(|p: Scored| p.1));
        }
        self.optimize_np_order(&mut np_users, state);
        proof {
            lemma_decide_np_usage_sound(*self, *state, *settings);
        }
        np_users
    }

    /// Re-order the chosen NP users by NP card type for the chain bonus.
    fn optimize_np_order(&self, np_order: &mut Vec<usize>, state: &BattleState)
        ensures
            final(np_order)@ == spec_optimize_np_order(old(np_order)@, state.servants@),
    {
        if np_order.len() < 2 {
            return;
        }
        let mut optimized: Vec<usize> = Vec::new();
        let mut i: usize = 0;
        while i < np_order.len()
            invariant
                np_order@ == old(np_order)@,
                i <= np_order@.len(),
                optimized@ == spec_np_users_of_type(np_order@.take(i as int), state.servants@,
                    NPType::Arts),
            decreases np_order@.len() - i,
        {
            proof {
                reveal_with_fuel(Seq::<_>::filter, 2);
                assert(np_order@.take(i + 1).drop_last() =~= np_order@.take(i as int));
                assert(np_order@.take(i + 1).last() == np_order@[i as int]);
            }
            let idx = np_order[i];
            if idx < state.servants.len() && matches!(state.servants[idx].np_type,
                NPType::Arts) {
                optimized.push(idx);
            }
            i = i + 1;
        }
        let ghost arts = spec_np_users_of_type(np_order@, state.servants@, NPType::Arts);
        proof {
            assert(np_order@.take(np_order@.len() as int) =~= np_order@);
        }
        let mut i: usize = 0;
        while i < np_order.len()
            invariant
                np_order@ == old(np_order)@,
                i <= np_order@.len(),
                arts == spec_np_users_of_type(np_order@, state.servants@, NPType::Arts),
                optimized@ == arts + spec_np_users_of_type(np_order@.take(i as int),
                    state.servants@, NPType::Quick),
            decreases np_order@.len() - i,
        {
            proof {
                reveal_with_fuel(Seq::<_>::filter, 2);
                assert(np_order@.take(i + 1).drop_last() =~= np_order@.take(i as int));
                assert(np_order@.take(i + 1).last() == np_order@[i as int]);
            }
            let idx = np_order[i];
            if idx < state.servants.len() && matches!(state.servants[idx].np_type,
                NPType::Quick) {
                optimized.push(idx);
                proof {
                    assert(optimized@ =~= arts + spec_np_users_of_type(np_order@.take(i + 1),
                        state.servants@, NPType::Quick));
                }
            } else {
                proof {
                    assert(optimized@ =~= arts + spec_np_users_of_type(np_order@.take(i + 1),
                        state.servants@, NPType::Quick));
                }
            }
            i = i + 1;
        }
        let ghost quick = spec_np_users_of_type(np_order@, state.servants@, NPType::Quick);
        proof {
            assert(np_order@.take(np_order@.len() as int) =~= np_order@);
        }
        let mut i: usize = 0;
        while i < np_order.len()
            invariant
                np_order@ == old(np_order)@,
                i <= np_order@.len(),
                arts == spec_np_users_of_type(np_order@, state.servants@, NPType::Arts),
                quick == spec_np_users_of_type(np_order@, state.servants@, NPType::Quick),
                optimized@ == arts + quick + spec_np_users_of_type(np_order@.take(i as int),
                    state.servants@, NPType::Buster),
            decreases np_order@.len() - i,
        {
            proof {
                reveal_with_fuel(Seq::<_>::filter, 2);
                assert(np_order@.take(i + 1).drop_last() =~= np_order@.take(i as int));
                assert(np_order@.take(i + 1).last() == np_order@[i as int]);
            }
            let idx = np_order[i];
            if idx < state.servants.len() && matches!(state.servants[idx].np_type,
                NPType::Buster) {
                optimized.push(idx);
                proof {
                    assert(optimized@ =~= arts + quick + spec_np_users_of_type(
                        np_order@.take(i + 1), state.servants@, NPType::Buster));
                }
            } else {
                proof {
                    assert(optimized@ =~= arts + quick + spec_np_users_of_type(
                        np_order@.take(i + 1), state.servants@, NPType::Buster));
                }
            }
            i = i + 1;
        }
        proof {
            assert(np_order@.take(np_order@.len() as int) =~= np_order@);
        }
        if optimized.len() == np_order.len() {
            *np_order = optimized;
        }
    }

    /// Check if the NP chain bonus applies: it takes three simultaneous
    /// NPs.
    pub fn has_np_chain_bonus(&self, np_count: usize) -> (r: bool)
        ensures
            r == (np_count >= 3),
    {
        np_count >= 3
    }

    /// Overcharge from a chain position: each position adds a full bar,
    /// capped at 500%.
    pub fn chain_overcharge(&self, base_overcharge: u32, chain_position: usize) -> (r: u32)
        ensures
            r == spec_chain_overcharge(base_overcharge, chain_position),
    {
        if chain_position >= 5 {
            return 500;
        }
        let raised = (base_overcharge as u64) + (chain_position as u64) * 100;
        if raised >= 500 {
            500
        } else {
            raised as u32
        }
    }

    /// Suggest waiting for more gauge: nearly charged, and not yet on the
    /// final wave.
    pub fn should_wait_for_np(&self, servant: &Servant, state: &BattleState) -> (r: bool)
        ensures
            r == (state.current_wave.wave_number != state.current_wave.total_waves
                && 80 <= servant.np_gauge < 100),
    {
        if state.is_final_wave() {
            return false;
        }
        servant.np_gauge >= 80 && servant.np_gauge < 100
    }

    /// Estimate the NP's damage, in thousandths of a neutral hit: the NP
    /// type multiplier, the overcharge and buff multipliers, and the mean
    /// class advantage over the alive enemies.
    pub fn estimate_np_damage(&self, servant: &Servant, state: &BattleState) -> (d: u64)
        requires
            state.current_wave.enemies@.len() <= 3,
        ensures
            d == spec_estimate_np_damage(*servant, *state),
    {
        let type_mult: u64 = match servant.np_type {
            NPType::Buster => 1500,
            NPType::Arts => 1000,
            NPType::Quick => 800,
        };
        let oc = servant.overcharge_level();
        let oc_mult: u64 = 1000 + ((oc - 1) as u64) * 100;
        let buff_mult: u64 = 1000 + (servant.buff_count as u64) * 200;
        let alive = state.current_wave.alive_enemies();
        let class_mult: u64 = if alive.len() == 0 {
            1000
        } else {
            let mut total: u64 = 0;
            let mut i: usize = 0;
            while i < alive.len()
                invariant
                    i <= alive@.len(),
                    alive@.len() <= 3,
                    total == spec_advantage_total(*servant, alive@.take(i as int)),
                    total <= i * 2000,
                decreases alive@.len() - i,
            {
                proof {
                    assert(alive@.take(i + 1).drop_last() =~= alive@.take(i as int));
                    assert(alive@.take(i + 1).last() == alive@[i as int]);
                }
                total = total + (servant.damage_multiplier(&alive[i].class) as u64);
                i = i + 1;
            }
            proof {
                assert(alive@.take(alive@.len() as int) =~= alive@);
            }
            let n = alive.len() as u64;
            proof {
                assert(total / n <= 2000) by (nonlinear_arith)
                    requires total <= n * 2000, n >= 1;
            }
            total / n
        };
        let d1 = type_mult;
        let d2 = mul_milli(d1, oc_mult);
        proof {
            assert(d2 * buff_mult <= 2100 * 860000000000u64 && d2 * buff_mult / 1000
                <= 1806000000000u64) by (nonlinear_arith)
                requires d2 <= 2100, buff_mult <= 860000000000u64;
        }
        let d3 = d2 * buff_mult / 1000;
        proof {
            assert(d3 * class_mult <= 1806000000000u64 * 2000) by (nonlinear_arith)
                requires d3 <= 1806000000000u64, class_mult <= 2000;
        }
        d3 * class_mult / 1000
    }
}

/// Overcharge from a chain position, capped at 500%.
pub open spec fn spec_chain_overcharge(base: u32, position: usize) -> int {
    if base + position * 100 >= 500 {
        500
    } else {
        base + position * 100
    }
}

/// Chain overcharge never drops as the position advances, and never exceeds
/// 500%.
pub proof fn lemma_chain_overcharge_monotone(base: u32, p1: usize, p2: usize)
    requires
        p1 <= p2,
    ensures
        spec_chain_overcharge(base, p1) <= spec_chain_overcharge(base, p2),
        spec_chain_overcharge(base, p2) <= 500,
{
}

/// The total class advantage of a servant over a lineup.
pub open spec fn spec_advantage_total(s: Servant, enemies: Seq<Enemy>) -> int
    decreases enemies.len(),
{
    if enemies.len() == 0 {
        0
    } else {
        spec_advantage_total(s, enemies.drop_last()) + spec_advantage(s.class,
            enemies.last().class)
    }
}

/// The estimated NP damage, in thousandths of a neutral hit.
pub open spec fn spec_estimate_np_damage(s: Servant, state: BattleState) -> int {
    let type_mult: int = match s.np_type {
        NPType::Buster => 1500,
        NPType::Arts => 1000,
        NPType::Quick => 800,
    };
    let oc_mult = 1000 + (spec_overcharge_level(s) - 1) * 100;
    let buff_mult = 1000 + s.buff_count * 200;
    let alive = spec_alive_enemies(state.current_wave.enemies@);
    let class_mult: int = if alive.len() == 0 {
        1000
    } else {
        spec_advantage_total(s, alive) / alive.len() as int
    };
    type_mult * oc_mult / 1000 * buff_mult / 1000 * class_mult / 1000
}

} // verus!
