//! Enemy targeting: scores and ranks the alive enemies of a wave.
//!
//! Scores are fixed-point thousandths. A lone alive enemy is always the
//! target; otherwise the enemy with the highest score wins, with ties going
//! to the earliest lineup position.

use vstd::prelude::*;
use crate::enemy::{Enemy, EnemyClass, EnemyWave, ThreatLevel, spec_alive_enemies,
    spec_threat_level};
use crate::servant::{Servant, spec_advantage};
use crate::settings::Settings;
use crate::rank::{Scored, mul_milli, spec_sort_desc, sort_pairs_desc};

verus! {

/// Enemy prioritization engine: the targeting weights, in thousandths.
#[derive(Debug, Clone, Copy, PartialEq, Eq, Structural)]
pub struct EnemyPrioritizer {
    /// Weight for low HP targeting.
    pub hp_weight: u32,
    /// Weight for class advantage.
    pub class_advantage_weight: u32,
    /// Weight for threat level.
    pub threat_weight: u32,
    /// Weight for break bars.
    pub break_bar_weight: u32,
}

impl EnemyPrioritizer {
    /// The bounds the scoring arithmetic relies on; the break-bar weight is
    /// a penalty, so it never exceeds neutral.
    pub open spec fn wf(&self) -> bool {
        &&& self.hp_weight <= 10000
        &&& self.class_advantage_weight <= 10000
        &&& self.threat_weight <= 10000
        &&& self.break_bar_weight <= 1000
    }

    /// Create a new enemy prioritizer with the default weights.
    pub fn new() -> (p: EnemyPrioritizer)
        ensures
            p == (EnemyPrioritizer {
                hp_weight: 1000u32,
                class_advantage_weight: 1200u32,
                threat_weight: 1500u32,
                break_bar_weight: 800u32,
            }),
            p.wf(),
    {
        EnemyPrioritizer {
            hp_weight: 1000,
            class_advantage_weight: 1200,
            threat_weight: 1500,
            break_bar_weight: 800,
        }
    }
}

/// The best class-advantage multiplier any alive servant holds against the
/// class, in thousandths; neutral when nobody does better.
pub open spec fn spec_max_alive_advantage(servants: Seq<Servant>, class: EnemyClass) -> int
    decreases servants.len(),
{
    if servants.len() == 0 {
        1000
    } else {
        let m = spec_max_alive_advantage(servants.drop_last(), class);
        let s = servants.last();
        if s.is_alive && spec_advantage(s.class, class) > m {
            spec_advantage(s.class, class) as int
        } else {
            m
        }
    }
}

/// The break-bar penalty applied once per remaining bar.
pub open spec fn spec_break_penalty(score: int, w: int, bars: int) -> int
    decreases bars,
{
    if bars <= 0 {
        score
    } else {
        spec_break_penalty(score * w / 1000, w, bars - 1)
    }
}

proof fn lemma_break_penalty_zero(w: int, bars: int)
    requires
        0 <= w,
    ensures
        spec_break_penalty(0, w, bars) == 0,
    decreases bars,
{
    if bars > 0 {
        lemma_break_penalty_zero(w, bars - 1);
    }
}

/// The targeting score of one enemy: the HP term plus the threat term,
/// then the class-advantage, break-bar, boss and dangerous-NP multipliers.
pub open spec fn spec_enemy_score(
    p: EnemyPrioritizer,
    e: Enemy,
    servants: Seq<Servant>,
    st: Settings,
) -> int {
    let hp_term = if st.target_low_hp_first {
        (1000 - e.hp_permille) * p.hp_weight * 10 / 1000
    } else {
        e.hp_permille * p.hp_weight / 1000
    };
    let threat_term = match spec_threat_level(e) {
        ThreatLevel::Critical => 10 * p.threat_weight,
        ThreatLevel::High => 7 * p.threat_weight,
        ThreatLevel::Medium => 4 * p.threat_weight,
        ThreatLevel::Low => 1 * p.threat_weight,
    };
    let base = hp_term + threat_term;
    let advantaged = if st.prioritize_class_advantage {
        base * spec_max_alive_advantage(servants, e.class) / 1000 * p.class_advantage_weight
            / 1000
    } else {
        base
    };
    let penalized = if e.break_bars > 0 {
        spec_break_penalty(advantaged, p.break_bar_weight as int, e.break_bars as int)
    } else {
        advantaged
    };
    let with_boss = if e.is_boss { penalized * 1500 / 1000 } else { penalized };
    if e.has_dangerous_np { with_boss * 2000 / 1000 } else { with_boss }
}

fn max_alive_advantage(servants: &[Servant], class: &EnemyClass) -> (m: u32)
    ensures
        m == spec_max_alive_advantage(servants@, *class),
        1000 <= m <= 2000,
{
    let mut m: u32 = 1000;
    let mut i: usize = 0;
    while i < servants.len()
        invariant
            i <= servants@.len(),
            m == spec_max_alive_advantage(servants@.take(i as int), *class),
            1000 <= m <= 2000,
        decreases servants@.len() - i,
    {
        proof {
            assert(servants@.take(i + 1).drop_last() =~= servants@.take(i as int));
            assert(servants@.take(i + 1).last() == servants@[i as int]);
        }
        let s = &servants[i];
        if s.is_alive {
            let adv = s.damage_multiplier(class);
            if adv > m {
                m = adv;
            }
        }
        i = i + 1;
    }
    proof {
        assert(servants@.take(servants@.len() as int) =~= servants@);
    }
    m
}

impl EnemyPrioritizer {
    /// Score an enemy for targeting priority, in thousandths.
    fn score_enemy(&self, enemy: &Enemy, servants: &[Servant], settings: &Settings)
        -> (s: u64)
        requires
            self.wf(),
            enemy.hp_permille <= 1000,
        ensures
            s == spec_enemy_score(*self, *enemy, servants@, *settings),
            s <= 0x40_0000_0000,
    {
        let hp_term: u64 = if settings.target_low_hp_first {
            let a = (1000 - enemy.hp_permille) as u64;
            let b = self.hp_weight as u64;
            proof {
                assert(a * b <= 1000 * 10000) by (nonlinear_arith)
                    requires a <= 1000, b <= 10000;
            }
            let t = a * b;
            t * 10 / 1000
        } else {
            let a = enemy.hp_permille as u64;
            let b = self.hp_weight as u64;
            proof {
                assert(a * b <= 1000 * 10000) by (nonlinear_arith)
                    requires a <= 1000, b <= 10000;
            }
            let t = a * b;
            t / 1000
        };
        let threat_term: u64 = match enemy.threat_level() {
            ThreatLevel::Critical => 10 * (self.threat_weight as u64),
            ThreatLevel::High => 7 * (self.threat_weight as u64),
            ThreatLevel::Medium => 4 * (self.threat_weight as u64),
            ThreatLevel::Low => 1 * (self.threat_weight as u64),
        };
        let base = hp_term + threat_term;
        let advantaged = if settings.prioritize_class_advantage {
            let m = max_alive_advantage(servants, &enemy.class);
            let s1 = mul_milli(base, m as u64);
            mul_milli(s1, self.class_advantage_weight as u64)
        } else {
            base
        };
        let penalized = if enemy.break_bars > 0 {
            let mut s = advantaged;
            let mut b: u32 = 0;
            while b < enemy.break_bars && s > 0
                invariant
                    self.wf(),
                    b <= enemy.break_bars,
                    s <= advantaged,
                    advantaged <= 0x40_0000_0000,
                    spec_break_penalty(s as int, self.break_bar_weight as int,
                        (enemy.break_bars - b) as int) == spec_break_penalty(
                        advantaged as int, self.break_bar_weight as int,
                        enemy.break_bars as int),
                decreases enemy.break_bars - b,
            {
                s = mul_milli(s, self.break_bar_weight as u64);
                b = b + 1;
            }
            proof {
                if s == 0 {
                    lemma_break_penalty_zero(self.break_bar_weight as int,
                        (enemy.break_bars - b) as int);
                }
            }
            s
        } else {
            advantaged
        };
        let with_boss = if enemy.is_boss {
            mul_milli(penalized, 1500)
        } else {
            penalized
        };
        if enemy.has_dangerous_np {
            mul_milli(with_boss, 2000)
        } else {
            with_boss
        }
    }

    /// Prioritize enemies and return the lineup position of the best
    /// target, if any enemy is alive.
    pub fn prioritize(&self, wave: &EnemyWave, servants: &[Servant], settings: &Settings)
        -> (r: Option<usize>)
        requires
            self.wf(),
            forall|i: int| 0 <= i < wave.enemies@.len()
                ==> (#[trigger] wave.enemies@[i]).hp_permille <= 1000,
        ensures
            r == spec_prioritize(*self, wave.enemies@, servants@, *settings),
    {
        let alive = wave.alive_enemies();
        if alive.len() == 0 {
            return None;
        }
        if alive.len() == 1 {
            return Some(alive[0].position);
        }
        proof {
            lemma_alive_hp_bounded(wave.enemies@);
        }
        let mut best: usize = 0;
        let mut best_score = self.score_enemy(&alive[0], servants, settings);
        let mut i: usize = 1;
        while i < alive.len()
            invariant
                self.wf(),
                alive@ == spec_alive_enemies(wave.enemies@),
                forall|k: int| 0 <= k < alive@.len()
                    ==> (#[trigger] alive@[k]).hp_permille <= 1000,
                1 <= i <= alive@.len(),
                best < i,
                best == spec_best_idx_upto(*self, alive@, servants@, *settings, i as int),
                best_score == spec_enemy_score(*self, alive@[best as int], servants@,
                    *settings),
            decreases alive@.len() - i,
        {
            let s = self.score_enemy(&alive[i], servants, settings);
            if s > best_score {
                best = i;
                best_score = s;
            }
            i = i + 1;
        }
        Some(alive[best].position)
    }

    /// Get the list of alive enemies in priority order, highest score
    /// first, ties keeping lineup order.
    pub fn get_priority_list(&self, wave: &EnemyWave, servants: &[Servant], settings: &Settings)
        -> (r: Vec<EnemyPriority>)
        requires
            self.wf(),
            forall|i: int| 0 <= i < wave.enemies@.len()
                ==> (#[trigger] wave.enemies@[i]).hp_permille <= 1000,
        ensures
            ({
                let alive = spec_alive_enemies(wave.enemies@);
                let sorted = spec_sort_desc(spec_score_pairs(*self, alive, servants@,
                    *settings));
                &&& r@.len() == alive.len()
                &&& forall|k: int| 0 <= k < r@.len() ==> #[trigger] r@[k]
                    == spec_priority_entry(alive[sorted[k].1 as int], sorted[k].0)
            }),
    {
        let alive = wave.alive_enemies();
        proof {
            lemma_alive_hp_bounded(wave.enemies@);
        }
        let ghost spec_pairs = spec_score_pairs(*self, alive@, servants@, *settings);
        let mut pairs: Vec<Scored> = Vec::new();
        let mut i: usize = 0;
        while i < alive.len()
            invariant
                self.wf(),
                alive@ == spec_alive_enemies(wave.enemies@),
                forall|k: int| 0 <= k < alive@.len()
                    ==> (#[trigger] alive@[k]).hp_permille <= 1000,
                spec_pairs == spec_score_pairs(*self, alive@, servants@, *settings),
                i <= alive@.len(),
                pairs@ == spec_pairs.take(i as int),
            decreases alive@.len() - i,
        {
            let s = self.score_enemy(&alive[i], servants, settings);
            pairs.push((s, i));
            proof {
                assert(pairs@ =~= spec_pairs.take(i + 1));
            }
            i = i + 1;
        }
        proof {
            assert(spec_pairs.take(spec_pairs.len() as int) =~= spec_pairs);
        }
        let sorted = sort_pairs_desc(&pairs);
        let mut r: Vec<EnemyPriority> = Vec::new();
        let mut k: usize = 0;
        while k < sorted.len()
            invariant
                alive@ == spec_alive_enemies(wave.enemies@),
                spec_pairs == spec_score_pairs(*self, alive@, servants@, *settings),
                sorted@ == spec_sort_desc(spec_pairs),
                sorted@.len() == alive@.len(),
                k <= sorted@.len(),
                r@.len() == k,
                forall|j: int| 0 <= j < k ==> #[trigger] r@[j]
                    == spec_priority_entry(alive@[sorted@[j].1 as int], sorted@[j].0),
            decreases sorted@.len() - k,
        {
            proof {
                crate::rank::lemma_sort_desc_contains(spec_pairs, k as int);
                let x = sorted@[k as int];
                assert(spec_pairs.contains(x));
                let j = choose|j: int| 0 <= j < spec_pairs.len() && spec_pairs[j] == x;
                assert(spec_pairs[j].1 == j as usize);
            }
            let (score, idx) = sorted[k];
            let e = &alive[idx];
            r.push(EnemyPriority {
                position: e.position,
                score,
                hp_permille: e.hp_permille,
                threat_level: e.threat_level(),
                has_break_bars: e.break_bars > 0,
            });
            k = k + 1;
        }
        r
    }

    /// Check if an enemy can be downed in one turn: never while break bars
    /// remain, else when the estimated damage fraction exceeds its HP.
    pub fn can_kill_in_one_turn(&self, enemy: &Enemy, estimated_damage: u32) -> (r: bool)
        ensures
            r == (enemy.break_bars == 0 && enemy.hp_permille < estimated_damage),
    {
        if enemy.has_break_bars() {
            return false;
        }
        enemy.hp_permille < estimated_damage
    }

    /// Get the position of the weakest alive enemy (for quick kills).
    pub fn get_weakest_enemy(&self, wave: &EnemyWave) -> (r: Option<usize>)
        ensures
            r is None <==> spec_alive_enemies(wave.enemies@).len() == 0,
            r matches Some(pos) ==> {
                let alive = spec_alive_enemies(wave.enemies@);
                exists|i: int|
                    0 <= i < alive.len() && #[trigger] alive[i].position == pos
                        && (forall|j: int| 0 <= j < alive.len() ==> alive[i].hp_permille
                            <= (#[trigger] alive[j]).hp_permille)
            },
    {
        match wave.lowest_hp_enemy() {
            Some(e) => Some(e.position),
            None => None,
        }
    }

    /// Get the position of the most threatening alive enemy.
    pub fn get_most_threatening(&self, wave: &EnemyWave) -> (r: Option<usize>)
        ensures
            r is None <==> spec_alive_enemies(wave.enemies@).len() == 0,
            r matches Some(pos) ==> {
                let alive = spec_alive_enemies(wave.enemies@);
                exists|i: int|
                    0 <= i < alive.len() && #[trigger] alive[i].position == pos
                        && (forall|j: int| 0 <= j < alive.len()
                            ==> crate::enemy::spec_threat_rank((#[trigger] alive[j]).spec_threat())
                                <= crate::enemy::spec_threat_rank(alive[i].spec_threat()))
            },
    {
        match wave.highest_threat_enemy() {
            Some(e) => Some(e.position),
            None => None,
        }
    }

    /// Suggest an area attack when at least two enemies are alive and their
    /// HP fractions sit within 0.3 of one another.
    pub fn should_use_aoe(&self, wave: &EnemyWave) -> (r: bool)
        ensures
            r == ({
                let alive = spec_alive_enemies(wave.enemies@);
                alive.len() >= 2 && spec_max_hp(alive) - spec_min_hp(alive) < 300
            }),
    {
        let alive = wave.alive_enemies();
        if alive.len() < 2 {
            return false;
        }
        let mut max_hp: u32 = 0;
        let mut min_hp: u32 = 1000;
        let mut i: usize = 0;
        while i < alive.len()
            invariant
                i <= alive@.len(),
                max_hp == spec_max_hp(alive@.take(i as int)),
                min_hp == spec_min_hp(alive@.take(i as int)),
            decreases alive@.len() - i,
        {
            proof {
                assert(alive@.take(i + 1).drop_last() =~= alive@.take(i as int));
                assert(alive@.take(i + 1).last() == alive@[i as int]);
            }
            let hp = alive[i].hp_permille;
            if hp > max_hp {
                max_hp = hp;
            }
            if hp < min_hp {
                min_hp = hp;
            }
            i = i + 1;
        }
        proof {
            assert(alive@.take(alive@.len() as int) =~= alive@);
        }
        if max_hp < min_hp {
            true
        } else {
            max_hp - min_hp < 300
        }
    }
}

/// The highest alive HP fraction, folded from zero as the wave is walked.
pub open spec fn spec_max_hp(alive: Seq<Enemy>) -> u32
    decreases alive.len(),
{
    if alive.len() == 0 {
        0u32
    } else {
        let m = spec_max_hp(alive.drop_last());
        if alive.last().hp_permille > m {
            alive.last().hp_permille
        } else {
            m
        }
    }
}

/// The lowest alive HP fraction, folded from full as the wave is walked.
pub open spec fn spec_min_hp(alive: Seq<Enemy>) -> u32
    decreases alive.len(),
{
    if alive.len() == 0 {
        1000u32
    } else {
        let m = spec_min_hp(alive.drop_last());
        if alive.last().hp_permille < m {
            alive.last().hp_permille
        } else {
            m
        }
    }
}

/// The scored candidates of the alive lineup, in lineup order.
pub open spec fn spec_score_pairs(
    p: EnemyPrioritizer,
    alive: Seq<Enemy>,
    servants: Seq<Servant>,
    st: Settings,
) -> Seq<Scored> {
    Seq::new(alive.len(), |i: int| (spec_enemy_score(p, alive[i], servants, st) as u64,
        i as usize))
}

/// One entry of the priority list.
pub open spec fn spec_priority_entry(e: Enemy, score: u64) -> EnemyPriority {
    EnemyPriority {
        position: e.position,
        score,
        hp_permille: e.hp_permille,
        threat_level: spec_threat_level(e),
        has_break_bars: e.break_bars > 0,
    }
}

/// The index of the best target among at least two alive enemies: the
/// first one whose score no later enemy beats strictly.
pub open spec fn spec_best_idx_upto(
    p: EnemyPrioritizer,
    alive: Seq<Enemy>,
    servants: Seq<Servant>,
    st: Settings,
    n: int,
) -> int
    decreases n,
{
    if n <= 1 {
        0
    } else {
        let m = spec_best_idx_upto(p, alive, servants, st, n - 1);
        if spec_enemy_score(p, alive[n - 1], servants, st) > spec_enemy_score(p, alive[m],
            servants, st) {
            n - 1
        } else {
            m
        }
    }
}

/// The target the prioritizer picks: none without an alive enemy, the lone
/// alive enemy's position unconditionally, else the position of the
/// highest-scored alive enemy, earliest on ties.
pub open spec fn spec_prioritize(
    p: EnemyPrioritizer,
    enemies: Seq<Enemy>,
    servants: Seq<Servant>,
    st: Settings,
) -> Option<usize> {
    let alive = spec_alive_enemies(enemies);
    if alive.len() == 0 {
        None
    } else if alive.len() == 1 {
        Some(alive[0].position)
    } else {
        Some(alive[spec_best_idx_upto(p, alive, servants, st, alive.len() as int)].position)
    }
}

/// A lone alive enemy is targeted whatever the scores say.
pub proof fn lemma_single_alive_targeted(
    p: EnemyPrioritizer,
    enemies: Seq<Enemy>,
    servants: Seq<Servant>,
    st: Settings,
)
    requires
        spec_alive_enemies(enemies).len() == 1,
    ensures
        spec_prioritize(p, enemies, servants, st) == Some(spec_alive_enemies(
            enemies)[0].position),
{
}

/// The chosen index scores at least as high as every alive enemy, and
/// strictly higher than every earlier one.
pub proof fn lemma_best_idx_is_first_max(
    p: EnemyPrioritizer,
    alive: Seq<Enemy>,
    servants: Seq<Servant>,
    st: Settings,
    n: int,
)
    requires
        1 <= n <= alive.len(),
    ensures
        0 <= spec_best_idx_upto(p, alive, servants, st, n) < n,
        forall|j: int| 0 <= j < n ==> spec_enemy_score(p, #[trigger] alive[j], servants, st)
            <= spec_enemy_score(p, alive[spec_best_idx_upto(p, alive, servants, st, n)],
                servants, st),
        forall|j: int| 0 <= j < spec_best_idx_upto(p, alive, servants, st, n)
            ==> spec_enemy_score(p, #[trigger] alive[j], servants, st) < spec_enemy_score(p,
                alive[spec_best_idx_upto(p, alive, servants, st, n)], servants, st),
    decreases n,
{
    if n > 1 {
        lemma_best_idx_is_first_max(p, alive, servants, st, n - 1);
    }
}

/// Alive enemies keep the wave's HP bound.
proof fn lemma_alive_hp_bounded(enemies: Seq<Enemy>)
    requires
        forall|i: int| 0 <= i < enemies.len() ==> (#[trigger] enemies[i]).hp_permille <= 1000,
    ensures
        forall|i: int| 0 <= i < spec_alive_enemies(enemies).len()
            ==> (#[trigger] spec_alive_enemies(enemies)[i]).hp_permille <= 1000,
    decreases enemies.len(),
{
    reveal_with_fuel(Seq::<_>::filter, 2);
    if enemies.len() > 0 {
        lemma_alive_hp_bounded(enemies.drop_last());
        let alive = spec_alive_enemies(enemies);
        let prev = spec_alive_enemies(enemies.drop_last());
        assert forall|i: int| 0 <= i < alive.len() implies (#[trigger] alive[i]).hp_permille
            <= 1000 by {
            if enemies.last().is_alive {
                assert(alive == prev.push(enemies.last()));
                if i < prev.len() {
                    assert(alive[i] == prev[i]);
                }
            } else {
                assert(alive == prev);
            }
        }
    }
}

/// Enemy priority information.
#[derive(Debug, Clone, Copy, PartialEq, Eq, Structural)]
pub struct EnemyPriority {
    /// Enemy position (0-2).
    pub position: usize,
    /// Priority score, in thousandths.
    pub score: u64,
    /// HP fraction in thousandths.
    pub hp_permille: u32,
    /// Threat level.
    pub threat_level: ThreatLevel,
    /// Has break bars.
    pub has_break_bars: bool,
}

} // verus!
