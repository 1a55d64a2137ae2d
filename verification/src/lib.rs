//! Decision engine for a turn-based three-card combat game.
//!
//! Given a structured snapshot of the current battle and a settings profile,
//! the engine selects the single best next action: target an enemy, use a
//! skill, or play a set of cards. Scores are fixed-point integers in
//! thousandths (milli units), so every decision is a total, deterministic
//! function of its inputs.
//!
//! Screen recognition, input execution, timing humanization and process
//! wiring are external collaborators; this crate only decides.

use vstd::prelude::*;

pub mod battle;
pub mod card_selector;
pub mod cards;
pub mod codec;
pub mod color;
pub mod enemy;
pub mod enemy_priority;
pub mod engine;
pub mod input;
pub mod np_timing;
pub mod rank;
pub mod servant;
pub mod settings;
pub mod skill_usage;
pub mod state;
pub mod strategy;

verus! {

/// One concrete action handed to the input-execution collaborator.
///
/// Exactly one value of this type is produced per decision call.
#[derive(Debug, Clone, PartialEq)]
pub enum ShebaAction {
    /// No action needed.
    NoOp,
    /// Tap at a specific screen coordinate.
    Tap { x: i32, y: i32 },
    /// Swipe from one point to another.
    Swipe { start_x: i32, start_y: i32, end_x: i32, end_y: i32, duration_ms: u32 },
    /// Wait for a specified duration.
    Wait { duration_ms: u32 },
    /// Select cards in order; indices 0-4 are card slots, 5+i is unit i's ultimate.
    SelectCards { card_indices: Vec<usize> },
    /// Use a skill (servant index 0-2, skill index 0-2, optional target 0-2).
    UseSkill { servant_idx: usize, skill_idx: usize, target: Option<usize> },
    /// Use a Noble Phantasm (servant index 0-2).
    UseNP { servant_idx: usize },
    /// Target an enemy (index 0-2).
    TargetEnemy { enemy_idx: usize },
    /// Tap the attack button to enter card selection.
    TapAttack,
    /// Use a master skill.
    UseMasterSkill { skill_idx: usize, target: Option<usize> },
}

} // verus!
