//! Named battle-strategy profiles: declarative weight tables and per-wave
//! ultimate-count targets.

use vstd::prelude::*;
use crate::cards::CardType;

verus! {

/// Type of battle strategy.
#[derive(Debug, Clone, Copy, PartialEq, Eq, Structural)]
pub enum StrategyType {
    /// Balanced approach - mix of damage and NP gain.
    Balanced,
    /// Maximum damage output.
    MaxDamage,
    /// NP looping - focus on NP gain and refund.
    NPLoop,
    /// Defensive - prioritize survival.
    Defensive,
    /// Speed farming - fastest possible clears.
    SpeedFarm,
    /// Custom strategy.
    Custom,
}

/// Card type weights for a strategy, in thousandths.
#[derive(Debug, Clone, Copy, PartialEq, Eq, Structural)]
pub struct CardWeights {
    /// Buster card weight.
    pub buster: u32,
    /// Arts card weight.
    pub arts: u32,
    /// Quick card weight.
    pub quick: u32,
}

impl Default for CardWeights {
    fn default() -> (w: CardWeights)
        ensures
            w == (CardWeights { buster: 1000u32, arts: 1000u32, quick: 1000u32 }),
    {
        CardWeights { buster: 1000, arts: 1000, quick: 1000 }
    }
}

/// Battle strategy configuration.
#[derive(Debug, Clone, Copy)]
pub struct BattleStrategy {
    /// Strategy type.
    pub strategy_type: StrategyType,
    /// Card type preference weights.
    pub card_weights: CardWeights,
    /// Whether to prioritize AoE attacks.
    pub prefer_aoe: bool,
    /// Whether to save NP for the boss.
    pub save_np_for_boss: bool,
    /// NP usage target per wave, clamped to the last entry.
    pub np_per_wave: [u32; 3],
    /// Whether to use all skills immediately.
    pub front_load_skills: bool,
}

/// The profile each strategy type stands for.
pub open spec fn spec_strategy(t: StrategyType) -> BattleStrategy {
    match t {
        StrategyType::MaxDamage => BattleStrategy {
            strategy_type: StrategyType::MaxDamage,
            card_weights: CardWeights { buster: 2000, arts: 800, quick: 600 },
            prefer_aoe: false,
            save_np_for_boss: true,
            np_per_wave: [0, 1, 3],
            front_load_skills: true,
        },
        StrategyType::NPLoop => BattleStrategy {
            strategy_type: StrategyType::NPLoop,
            card_weights: CardWeights { buster: 600, arts: 2000, quick: 800 },
            prefer_aoe: true,
            save_np_for_boss: false,
            np_per_wave: [1, 1, 1],
            front_load_skills: true,
        },
        StrategyType::Defensive => BattleStrategy {
            strategy_type: StrategyType::Defensive,
            card_weights: CardWeights { buster: 800, arts: 1500, quick: 1000 },
            prefer_aoe: true,
            save_np_for_boss: false,
            np_per_wave: [1, 1, 1],
            front_load_skills: false,
        },
        StrategyType::SpeedFarm => BattleStrategy {
            strategy_type: StrategyType::SpeedFarm,
            card_weights: CardWeights { buster: 1500, arts: 1200, quick: 800 },
            prefer_aoe: true,
            save_np_for_boss: false,
            np_per_wave: [1, 1, 1],
            front_load_skills: true,
        },
        _ => BattleStrategy {
            strategy_type: StrategyType::Balanced,
            card_weights: CardWeights { buster: 1000, arts: 1000, quick: 1000 },
            prefer_aoe: true,
            save_np_for_boss: false,
            np_per_wave: [1, 1, 2],
            front_load_skills: false,
        },
    }
}

/// The NP count targeted on a wave: `np_per_wave` indexed by the zero-based
/// wave, clamped to the last entry.
pub open spec fn spec_np_count_for_wave(s: BattleStrategy, wave: u32) -> u32 {
    let idx = if wave <= 1 { 0int } else if wave - 1 < 2 { wave - 1 } else { 2int };
    s.np_per_wave[idx]
}

/// Whether an NP should still be used on this wave: the running count is
/// below the wave's target, or this is the declared final wave.
pub open spec fn spec_should_np_on_wave(
    s: BattleStrategy,
    wave: u32,
    total_waves: u32,
    current_np_count: u32,
) -> bool {
    current_np_count < spec_np_count_for_wave(s, wave) || wave == total_waves
}

impl BattleStrategy {
    /// Create a new strategy from its named profile. A custom strategy
    /// starts from the balanced profile.
    pub fn new(strategy_type: StrategyType) -> (s: BattleStrategy)
        ensures
            s == spec_strategy(strategy_type),
    {
        match strategy_type {
            StrategyType::MaxDamage => BattleStrategy {
                strategy_type: StrategyType::MaxDamage,
                card_weights: CardWeights { buster: 2000, arts: 800, quick: 600 },
                prefer_aoe: false,
                save_np_for_boss: true,
                np_per_wave: [0, 1, 3],
                front_load_skills: true,
            },
            StrategyType::NPLoop => BattleStrategy {
                strategy_type: StrategyType::NPLoop,
                card_weights: CardWeights { buster: 600, arts: 2000, quick: 800 },
                prefer_aoe: true,
                save_np_for_boss: false,
                np_per_wave: [1, 1, 1],
                front_load_skills: true,
            },
            StrategyType::Defensive => BattleStrategy {
                strategy_type: StrategyType::Defensive,
                card_weights: CardWeights { buster: 800, arts: 1500, quick: 1000 },
                prefer_aoe: true,
                save_np_for_boss: false,
                np_per_wave: [1, 1, 1],
                front_load_skills: false,
            },
            StrategyType::SpeedFarm => BattleStrategy {
                strategy_type: StrategyType::SpeedFarm,
                card_weights: CardWeights { buster: 1500, arts: 1200, quick: 800 },
                prefer_aoe: true,
                save_np_for_boss: false,
                np_per_wave: [1, 1, 1],
                front_load_skills: true,
            },
            _ => BattleStrategy {
                strategy_type: StrategyType::Balanced,
                card_weights: CardWeights { buster: 1000, arts: 1000, quick: 1000 },
                prefer_aoe: true,
                save_np_for_boss: false,
                np_per_wave: [1, 1, 2],
                front_load_skills: false,
            },
        }
    }

    /// Get the strategy type.
    pub fn strategy_type(&self) -> (t: StrategyType)
        ensures
            t == self.strategy_type,
    {
        self.strategy_type
    }

    /// Get the recommended NP count for a wave (1-indexed).
    pub fn np_count_for_wave(&self, wave: u32) -> (n: u32)
        ensures
            n == spec_np_count_for_wave(*self, wave),
    {
        let idx: usize = if wave <= 1 {
            0
        } else if wave - 1 < 2 {
            (wave - 1) as usize
        } else {
            2
        };
        self.np_per_wave[idx]
    }

    /// Check if we should use an NP on this wave.
    pub fn should_np_on_wave(&self, wave: u32, total_waves: u32, current_np_count: u32)
        -> (r: bool)
        ensures
            r == spec_should_np_on_wave(*self, wave, total_waves, current_np_count),
    {
        let target = self.np_count_for_wave(wave);
        if current_np_count < target {
            return true;
        }
        wave == total_waves
    }

    /// Get the weight of a card type under this strategy, in thousandths.
    pub fn get_card_weight(&self, card_type: &CardType) -> (w: u32)
        ensures
            w == (match *card_type {
                CardType::Buster => self.card_weights.buster,
                CardType::Arts => self.card_weights.arts,
                CardType::Quick => self.card_weights.quick,
                _ => 1000u32,
            }),
    {
        match card_type {
            CardType::Buster => self.card_weights.buster,
            CardType::Arts => self.card_weights.arts,
            CardType::Quick => self.card_weights.quick,
            _ => 1000,
        }
    }
}

/// Wave-specific strategy adjustments.
#[derive(Debug, Clone)]
pub struct WaveStrategy {
    /// Wave number.
    pub wave: u32,
    /// Target NP count.
    pub target_np_count: u32,
    /// Priority skills to use, as (servant, skill) pairs.
    pub priority_skills: Vec<(usize, usize)>,
    /// Whether to focus a single target.
    pub single_target_focus: bool,
}

impl WaveStrategy {
    /// Create a new wave strategy.
    pub fn new(wave: u32) -> (w: WaveStrategy)
        ensures
            w.wave == wave,
            w.target_np_count == 1,
            w.priority_skills@ == Seq::<(usize, usize)>::empty(),
            w.single_target_focus == false,
    {
        WaveStrategy { wave, target_np_count: 1, priority_skills: Vec::new(), single_target_focus: false }
    }

    /// Set the target NP count.
    pub fn with_np_count(self, count: u32) -> (w: WaveStrategy)
        ensures
            w == (WaveStrategy { target_np_count: count, ..self }),
    {
        let mut w = self;
        w.target_np_count = count;
        w
    }

    /// Add a priority skill.
    pub fn with_skill(self, servant: usize, skill: usize) -> (w: WaveStrategy)
        ensures
            w.priority_skills@ == self.priority_skills@.push((servant, skill)),
            w.wave == self.wave,
            w.target_np_count == self.target_np_count,
            w.single_target_focus == self.single_target_focus,
    {
        let mut w = self;
        w.priority_skills.push((servant, skill));
        w
    }

    /// Set single target focus.
    pub fn with_single_target(self, focus: bool) -> (w: WaveStrategy)
        ensures
            w == (WaveStrategy { single_target_focus: focus, ..self }),
    {
        let mut w = self;
        w.single_target_focus = focus;
        w
    }
}

} // verus!
