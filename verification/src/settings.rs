//! User settings: card priority, targeting toggles, skill automation, team
//! configuration and timing constants.
//!
//! Settings are supplied by the configuration collaborator and are read-only
//! to the decision engine; the timing constants are opaque numbers that the
//! engine hands through without interpreting.

use vstd::prelude::*;
use crate::cards::CardType;
use crate::servant::{NPType, ServantClass};

verus! {

/// Main settings structure.
#[derive(Debug, Clone)]
pub struct Settings {
    /// Card selection priority order.
    pub card_priority: CardPriority,
    /// NP threshold (percentage) to consider using NP.
    pub np_threshold: u32,
    /// Whether to target low HP enemies first.
    pub target_low_hp_first: bool,
    /// Whether to prioritize class advantage.
    pub prioritize_class_advantage: bool,
    /// Skill usage settings.
    pub skill_settings: SkillSettings,
    /// Team configuration.
    pub team_config: Option<TeamConfig>,
    /// General automation settings.
    pub automation: AutomationSettings,
    /// Screen timing settings.
    pub timings: TimingSettings,
}

/// Card selection priority.
#[derive(Debug, Clone, Copy, PartialEq, Eq, Structural)]
pub struct CardPriority {
    /// First priority card type.
    pub first_choice: CardType,
    /// Second priority card type.
    pub second_choice: CardType,
    /// Third priority card type.
    pub third_choice: CardType,
    /// Whether to prefer forming chains.
    pub prefer_chains: bool,
    /// Whether to prefer brave chains over colour chains.
    pub prefer_brave_chains: bool,
}

/// Rank score of a card type under a priority order: 3 for the first choice,
/// 2 for the second, 1 for the third, 0 otherwise.
pub open spec fn spec_priority_score(p: CardPriority, t: CardType) -> u32 {
    if t == p.first_choice {
        3u32
    } else if t == p.second_choice {
        2u32
    } else if t == p.third_choice {
        1u32
    } else {
        0u32
    }
}

impl Default for CardPriority {
    fn default() -> (p: CardPriority)
        ensures
            p == spec_default_card_priority(),
    {
        CardPriority {
            first_choice: CardType::Buster,
            second_choice: CardType::Arts,
            third_choice: CardType::Quick,
            prefer_chains: true,
            prefer_brave_chains: true,
        }
    }
}

pub open spec fn spec_default_card_priority() -> CardPriority {
    CardPriority {
        first_choice: CardType::Buster,
        second_choice: CardType::Arts,
        third_choice: CardType::Quick,
        prefer_chains: true,
        prefer_brave_chains: true,
    }
}

impl CardPriority {
    /// Get the priority score for a card type (higher = better).
    pub fn score(&self, card_type: CardType) -> (s: u32)
        ensures
            s == spec_priority_score(*self, card_type),
            s <= 3,
    {
        if card_type == self.first_choice {
            3
        } else if card_type == self.second_choice {
            2
        } else if card_type == self.third_choice {
            1
        } else {
            0
        }
    }
}

/// Skill usage settings.
#[derive(Debug, Clone)]
pub struct SkillSettings {
    /// Whether to automatically use skills.
    pub auto_use_skills: bool,
    /// Whether to prioritize NP charge skills.
    pub np_charge_priority: bool,
    /// Specific skill orders per turn.
    pub skill_order: Option<Vec<SkillCommand>>,
    /// Whether to use master skills.
    pub use_master_skills: bool,
    /// Master skill order.
    pub master_skill_order: Option<Vec<MasterSkillCommand>>,
}

impl Default for SkillSettings {
    fn default() -> (s: SkillSettings)
        ensures
            s.auto_use_skills == true,
            s.np_charge_priority == true,
            s.skill_order is None,
            s.use_master_skills == true,
            s.master_skill_order is None,
    {
        SkillSettings {
            auto_use_skills: true,
            np_charge_priority: true,
            skill_order: None,
            use_master_skills: true,
            master_skill_order: None,
        }
    }
}

/// A skill command (servant skill).
#[derive(Debug, Clone, Copy, PartialEq, Eq, Structural)]
pub struct SkillCommand {
    /// Servant index (0-2).
    pub servant: usize,
    /// Skill index (0-2).
    pub skill: usize,
    /// Target servant index (if applicable).
    pub target: Option<usize>,
    /// Wave to use this skill (1-indexed).
    pub wave: Option<u32>,
    /// Turn to use this skill (1-indexed, within wave).
    pub turn: Option<u32>,
}

/// A master skill command.
#[derive(Debug, Clone, Copy, PartialEq, Eq, Structural)]
pub struct MasterSkillCommand {
    /// Skill index (0-2).
    pub skill: usize,
    /// Target servant index (if applicable).
    pub target: Option<usize>,
    /// Wave to use this skill.
    pub wave: Option<u32>,
    /// Turn to use this skill.
    pub turn: Option<u32>,
}

/// Team configuration.
#[derive(Debug, Clone)]
pub struct TeamConfig {
    /// Servant configurations.
    pub servants: Vec<ServantConfig>,
    /// Support servant filter.
    pub support_filter: Option<SupportFilter>,
}

/// Individual servant configuration.
#[derive(Debug, Clone)]
pub struct ServantConfig {
    /// Servant ID (from game data).
    pub id: Option<u32>,
    /// Expected class.
    pub class: ServantClass,
    /// Position (0-5).
    pub position: usize,
    /// NP card type.
    pub np_type: NPType,
    /// Whether this is the main damage dealer.
    pub is_dps: bool,
    /// Custom skill order for this servant.
    pub skill_order: Option<Vec<u32>>,
}

/// Support servant filter settings.
#[derive(Debug, Clone)]
pub struct SupportFilter {
    /// Preferred servant class.
    pub class: Option<ServantClass>,
    /// Preferred servant IDs.
    pub servant_ids: Vec<u32>,
    /// Minimum NP level.
    pub min_np_level: Option<u32>,
    /// Required CE (craft essence) ID.
    pub ce_id: Option<u32>,
    /// Whether the CE must be at its maximum limit break.
    pub ce_mlb: bool,
}

/// General automation settings.
#[derive(Debug, Clone, Copy, PartialEq, Eq, Structural)]
pub struct AutomationSettings {
    /// Auto-continue through result screens.
    pub auto_continue: bool,
    /// Loop farming.
    pub loop_farming: bool,
    /// Maximum loop count (0 = unlimited).
    pub max_loops: u32,
    /// Use apples for AP recovery.
    pub use_apples: bool,
    /// Apple type preference (gold, silver, bronze).
    pub apple_preference: ApplePreference,
    /// Stop on error.
    pub stop_on_error: bool,
}

impl Default for AutomationSettings {
    fn default() -> (a: AutomationSettings)
        ensures
            a == spec_default_automation(),
    {
        AutomationSettings {
            auto_continue: true,
            loop_farming: false,
            max_loops: 0,
            use_apples: false,
            apple_preference: ApplePreference::Bronze,
            stop_on_error: true,
        }
    }
}

pub open spec fn spec_default_automation() -> AutomationSettings {
    AutomationSettings {
        auto_continue: true,
        loop_farming: false,
        max_loops: 0,
        use_apples: false,
        apple_preference: ApplePreference::Bronze,
        stop_on_error: true,
    }
}

/// Apple type preference for AP recovery.
#[derive(Debug, Clone, Copy, PartialEq, Eq, Structural)]
pub enum ApplePreference {
    /// Golden apples (full AP).
    Gold,
    /// Silver apples (half AP).
    Silver,
    /// Bronze apples (10 AP).
    Bronze,
    /// Don't use apples.
    NoApples,
}

/// Timing settings for screen interactions, in milliseconds. Opaque to the
/// decision engine.
#[derive(Debug, Clone, Copy, PartialEq, Eq, Structural)]
pub struct TimingSettings {
    /// Delay between taps.
    pub tap_delay: u32,
    /// Delay after card selection.
    pub card_delay: u32,
    /// Delay after skill use.
    pub skill_delay: u32,
    /// Delay after NP selection.
    pub np_delay: u32,
    /// Wait time for screen transitions.
    pub transition_wait: u32,
    /// Wait time for attack animations.
    pub attack_wait: u32,
}

impl Default for TimingSettings {
    fn default() -> (t: TimingSettings)
        ensures
            t == spec_default_timings(),
    {
        TimingSettings {
            tap_delay: 300,
            card_delay: 200,
            skill_delay: 500,
            np_delay: 300,
            transition_wait: 2000,
            attack_wait: 3000,
        }
    }
}

pub open spec fn spec_default_timings() -> TimingSettings {
    TimingSettings {
        tap_delay: 300,
        card_delay: 200,
        skill_delay: 500,
        np_delay: 300,
        transition_wait: 2000,
        attack_wait: 3000,
    }
}

impl Default for Settings {
    fn default() -> (s: Settings)
        ensures
            s.card_priority == spec_default_card_priority(),
            s.np_threshold == 100,
            s.target_low_hp_first == true,
            s.prioritize_class_advantage == true,
            s.skill_settings.auto_use_skills == true,
            s.skill_settings.np_charge_priority == true,
            s.skill_settings.skill_order is None,
            s.skill_settings.use_master_skills == true,
            s.skill_settings.master_skill_order is None,
            s.team_config is None,
            s.automation == spec_default_automation(),
            s.timings == spec_default_timings(),
    {
        Settings {
            card_priority: CardPriority::default(),
            np_threshold: 100,
            target_low_hp_first: true,
            prioritize_class_advantage: true,
            skill_settings: SkillSettings::default(),
            team_config: None,
            automation: AutomationSettings::default(),
            timings: TimingSettings::default(),
        }
    }
}

impl Settings {
    /// Create settings optimized for farming: speed over efficiency, looping
    /// enabled, skills automated.
    pub fn farming_preset() -> (s: Settings)
        ensures
            s.card_priority == (CardPriority {
                first_choice: CardType::Buster,
                second_choice: CardType::Arts,
                third_choice: CardType::Quick,
                prefer_chains: true,
                prefer_brave_chains: true,
            }),
            s.np_threshold == 100,
            s.target_low_hp_first == true,
            s.prioritize_class_advantage == false,
            s.skill_settings.auto_use_skills == true,
            s.skill_settings.np_charge_priority == true,
            s.skill_settings.skill_order is None,
            s.skill_settings.use_master_skills == true,
            s.skill_settings.master_skill_order is None,
            s.team_config is None,
            s.automation == (AutomationSettings {
                auto_continue: true,
                loop_farming: true,
                ..spec_default_automation()
            }),
            s.timings == spec_default_timings(),
    {
        let mut s = Settings::default();
        s.prioritize_class_advantage = false;
        s.automation.auto_continue = true;
        s.automation.loop_farming = true;
        s
    }

    /// Create settings for boss fights: focus the boss, keep manual control
    /// of skills, no looping.
    pub fn boss_fight_preset() -> (s: Settings)
        ensures
            s.card_priority == (CardPriority {
                first_choice: CardType::Arts,
                second_choice: CardType::Buster,
                third_choice: CardType::Quick,
                prefer_chains: true,
                prefer_brave_chains: true,
            }),
            s.np_threshold == 100,
            s.target_low_hp_first == false,
            s.prioritize_class_advantage == true,
            s.skill_settings.auto_use_skills == false,
            s.skill_settings.np_charge_priority == true,
            s.skill_settings.skill_order is None,
            s.skill_settings.use_master_skills == true,
            s.skill_settings.master_skill_order is None,
            s.team_config is None,
            s.automation == (AutomationSettings {
                auto_continue: false,
                loop_farming: false,
                ..spec_default_automation()
            }),
            s.timings == spec_default_timings(),
    {
        let mut s = Settings::default();
        s.card_priority.first_choice = CardType::Arts;
        s.card_priority.second_choice = CardType::Buster;
        s.target_low_hp_first = false;
        s.skill_settings.auto_use_skills = false;
        s.automation.auto_continue = false;
        s
    }

    /// Create settings for NP looping: Arts-leaning priority, charge skills
    /// first.
    pub fn np_loop_preset() -> (s: Settings)
        ensures
            s.card_priority == (CardPriority {
                first_choice: CardType::Arts,
                second_choice: CardType::Arts,
                third_choice: CardType::Quick,
                prefer_chains: true,
                prefer_brave_chains: false,
            }),
            s.np_threshold == 100,
            s.target_low_hp_first == true,
            s.prioritize_class_advantage == false,
            s.skill_settings.auto_use_skills == true,
            s.skill_settings.np_charge_priority == true,
            s.skill_settings.skill_order is None,
            s.skill_settings.use_master_skills == true,
            s.skill_settings.master_skill_order is None,
            s.team_config is None,
            s.automation == spec_default_automation(),
            s.timings == spec_default_timings(),
    {
        let mut s = Settings::default();
        s.card_priority.first_choice = CardType::Arts;
        s.card_priority.second_choice = CardType::Arts;
        s.card_priority.third_choice = CardType::Quick;
        s.card_priority.prefer_brave_chains = false;
        s.prioritize_class_advantage = false;
        s
    }
}

} // verus!
