//! Servants in battle: class advantage, skills, and the NP gauge.

use vstd::prelude::*;

verus! {

/// Servant class types.
#[derive(Debug, Clone, Copy, PartialEq, Eq, Structural, Hash)]
pub enum ServantClass {
    Saber,
    Archer,
    Lancer,
    Rider,
    Caster,
    Assassin,
    Berserker,
    Ruler,
    Avenger,
    MoonCancer,
    AlterEgo,
    Foreigner,
    Pretender,
    Beast,
    Shielder,
    Unknown,
}

/// Class advantage multiplier in thousandths: 2000 doubles damage, 500
/// halves it, 1000 is neutral.
pub open spec fn spec_advantage(s: ServantClass, e: crate::enemy::EnemyClass) -> u32 {
    match (s, e) {
        (ServantClass::Saber, crate::enemy::EnemyClass::Lancer) => 2000,
        (ServantClass::Saber, crate::enemy::EnemyClass::Archer) => 500,
        (ServantClass::Archer, crate::enemy::EnemyClass::Saber) => 2000,
        (ServantClass::Archer, crate::enemy::EnemyClass::Lancer) => 500,
        (ServantClass::Lancer, crate::enemy::EnemyClass::Archer) => 2000,
        (ServantClass::Lancer, crate::enemy::EnemyClass::Saber) => 500,
        (ServantClass::Rider, crate::enemy::EnemyClass::Caster) => 2000,
        (ServantClass::Rider, crate::enemy::EnemyClass::Assassin) => 500,
        (ServantClass::Caster, crate::enemy::EnemyClass::Assassin) => 2000,
        (ServantClass::Caster, crate::enemy::EnemyClass::Rider) => 500,
        (ServantClass::Assassin, crate::enemy::EnemyClass::Rider) => 2000,
        (ServantClass::Assassin, crate::enemy::EnemyClass::Caster) => 500,
        (ServantClass::Berserker, _) => 1500,
        (ServantClass::Ruler, crate::enemy::EnemyClass::MoonCancer) => 2000,
        (ServantClass::Ruler, crate::enemy::EnemyClass::Avenger) => 500,
        (ServantClass::Avenger, crate::enemy::EnemyClass::Ruler) => 2000,
        (ServantClass::MoonCancer, crate::enemy::EnemyClass::Avenger) => 2000,
        (ServantClass::MoonCancer, crate::enemy::EnemyClass::Ruler) => 500,
        (ServantClass::AlterEgo, crate::enemy::EnemyClass::Cavalry) => 1500,
        (ServantClass::AlterEgo, crate::enemy::EnemyClass::Foreigner) => 2000,
        (ServantClass::Foreigner, crate::enemy::EnemyClass::Foreigner) => 2000,
        (ServantClass::Foreigner, crate::enemy::EnemyClass::Berserker) => 2000,
        (ServantClass::Pretender, crate::enemy::EnemyClass::Knight) => 1500,
        _ => 1000,
    }
}

impl ServantClass {
    /// Class advantage multiplier against an enemy class, in thousandths.
    pub fn advantage_against(&self, enemy: &crate::enemy::EnemyClass) -> (m: u32)
        ensures
            m == spec_advantage(*self, *enemy),
    {
        match (self, enemy) {
            (ServantClass::Saber, crate::enemy::EnemyClass::Lancer) => 2000,
            (ServantClass::Saber, crate::enemy::EnemyClass::Archer) => 500,
            (ServantClass::Archer, crate::enemy::EnemyClass::Saber) => 2000,
            (ServantClass::Archer, crate::enemy::EnemyClass::Lancer) => 500,
            (ServantClass::Lancer, crate::enemy::EnemyClass::Archer) => 2000,
            (ServantClass::Lancer, crate::enemy::EnemyClass::Saber) => 500,
            (ServantClass::Rider, crate::enemy::EnemyClass::Caster) => 2000,
            (ServantClass::Rider, crate::enemy::EnemyClass::Assassin) => 500,
            (ServantClass::Caster, crate::enemy::EnemyClass::Assassin) => 2000,
            (ServantClass::Caster, crate::enemy::EnemyClass::Rider) => 500,
            (ServantClass::Assassin, crate::enemy::EnemyClass::Rider) => 2000,
            (ServantClass::Assassin, crate::enemy::EnemyClass::Caster) => 500,
            (ServantClass::Berserker, _) => 1500,
            (ServantClass::Ruler, crate::enemy::EnemyClass::MoonCancer) => 2000,
            (ServantClass::Ruler, crate::enemy::EnemyClass::Avenger) => 500,
            (ServantClass::Avenger, crate::enemy::EnemyClass::Ruler) => 2000,
            (ServantClass::MoonCancer, crate::enemy::EnemyClass::Avenger) => 2000,
            (ServantClass::MoonCancer, crate::enemy::EnemyClass::Ruler) => 500,
            (ServantClass::AlterEgo, crate::enemy::EnemyClass::Cavalry) => 1500,
            (ServantClass::AlterEgo, crate::enemy::EnemyClass::Foreigner) => 2000,
            (ServantClass::Foreigner, crate::enemy::EnemyClass::Foreigner) => 2000,
            (ServantClass::Foreigner, crate::enemy::EnemyClass::Berserker) => 2000,
            (ServantClass::Pretender, crate::enemy::EnemyClass::Knight) => 1500,
            _ => 1000,
        }
    }

    /// Check if this servant takes extra damage from the enemy class.
    pub fn weak_against(&self, enemy: &crate::enemy::EnemyClass) -> (r: bool)
        ensures
            r == (spec_advantage(*self, *enemy) < 1000),
    {
        self.advantage_against(enemy) < 1000
    }
}

/// A skill that a servant has.
#[derive(Debug, Clone, Copy, PartialEq, Eq, Structural)]
pub struct Skill {
    /// Current cooldown (0 = ready).
    pub cooldown: u32,
    /// Maximum cooldown after use.
    pub max_cooldown: u32,
    /// Whether this skill requires a target.
    pub requires_target: bool,
    /// Whether this skill is a damage buff.
    pub is_damage_buff: bool,
    /// Whether this skill is an NP charge.
    pub is_np_charge: bool,
    /// NP charge amount (percentage points).
    pub np_charge_amount: u32,
}

impl Default for Skill {
    fn default() -> (s: Skill)
        ensures
            s == spec_default_skill(),
    {
        Skill {
            cooldown: 0,
            max_cooldown: 6,
            requires_target: false,
            is_damage_buff: false,
            is_np_charge: false,
            np_charge_amount: 0,
        }
    }
}

pub open spec fn spec_default_skill() -> Skill {
    Skill {
        cooldown: 0,
        max_cooldown: 6,
        requires_target: false,
        is_damage_buff: false,
        is_np_charge: false,
        np_charge_amount: 0,
    }
}

impl Skill {
    /// Check if the skill is ready to use.
    pub fn is_ready(&self) -> (r: bool)
        ensures
            r == (self.cooldown == 0),
    {
        self.cooldown == 0
    }

    /// Use the skill, setting it on cooldown.
    pub fn use_skill(&mut self)
        ensures
            *final(self) == (Skill { cooldown: old(self).max_cooldown, ..*old(self) }),
    {
        self.cooldown = self.max_cooldown;
    }

    /// Reduce cooldown by 1 turn.
    pub fn tick_cooldown(&mut self)
        ensures
            final(self).cooldown == (if old(self).cooldown > 0 {
                (old(self).cooldown - 1) as u32
            } else {
                0u32
            }),
            *final(self) == (Skill { cooldown: final(self).cooldown, ..*old(self) }),
    {
        if self.cooldown > 0 {
            self.cooldown = self.cooldown - 1;
        }
    }
}

/// NP card type.
#[derive(Debug, Clone, Copy, PartialEq, Eq, Structural)]
pub enum NPType {
    Buster,
    Arts,
    Quick,
}

/// A servant in battle.
#[derive(Debug, Clone, Copy)]
pub struct Servant {
    /// Servant ID (from game data).
    pub id: Option<u32>,
    /// Servant class.
    pub class: ServantClass,
    /// Current HP fraction in thousandths (0-1000).
    pub hp_permille: u32,
    /// Current NP gauge (0-300).
    pub np_gauge: u32,
    /// The servant's skills.
    pub skills: [Skill; 3],
    /// NP card type.
    pub np_type: NPType,
    /// Position in party (0-2 for frontline, 3-5 for backline).
    pub position: usize,
    /// Whether the servant is alive.
    pub is_alive: bool,
    /// Number of active buffs.
    pub buff_count: u32,
    /// Number of active debuffs.
    pub debuff_count: u32,
}

impl Default for Servant {
    fn default() -> (s: Servant)
        ensures
            s == spec_default_servant(),
    {
        Servant {
            id: None,
            class: ServantClass::Unknown,
            hp_permille: 1000,
            np_gauge: 0,
            skills: [Skill::default(), Skill::default(), Skill::default()],
            np_type: NPType::Buster,
            position: 0,
            is_alive: true,
            buff_count: 0,
            debuff_count: 0,
        }
    }
}

pub open spec fn spec_default_servant() -> Servant {
    Servant {
        id: None,
        class: ServantClass::Unknown,
        hp_permille: 1000,
        np_gauge: 0,
        skills: [spec_default_skill(), spec_default_skill(), spec_default_skill()],
        np_type: NPType::Buster,
        position: 0,
        is_alive: true,
        buff_count: 0,
        debuff_count: 0,
    }
}

/// Whether the servant's NP is ready: full gauge and alive.
pub open spec fn spec_can_np(s: Servant) -> bool {
    s.np_gauge >= 100 && s.is_alive
}

/// Overcharge level 1-5 from the gauge, one level per full 100%.
pub open spec fn spec_overcharge_level(s: Servant) -> u32 {
    if s.np_gauge / 100 < 1 {
        1u32
    } else if s.np_gauge / 100 > 5 {
        5u32
    } else {
        (s.np_gauge / 100) as u32
    }
}

impl Servant {
    /// Create a new servant with the given class and position.
    pub fn new(class: ServantClass, position: usize) -> (s: Servant)
        ensures
            s == (Servant { class, position, ..spec_default_servant() }),
            s.class == class,
            s.position == position,
    {
        Servant {
            id: None,
            class,
            hp_permille: 1000,
            np_gauge: 0,
            skills: [Skill::default(), Skill::default(), Skill::default()],
            np_type: NPType::Buster,
            position,
            is_alive: true,
            buff_count: 0,
            debuff_count: 0,
        }
    }

    /// Check if the NP is ready (100% or more, and alive).
    pub fn can_np(&self) -> (r: bool)
        ensures
            r == spec_can_np(*self),
    {
        self.np_gauge >= 100 && self.is_alive
    }

    /// Check if the NP is at overcharge level 2 or more (200%+).
    pub fn can_overcharge(&self) -> (r: bool)
        ensures
            r == (self.np_gauge >= 200),
    {
        self.np_gauge >= 200
    }

    /// Get the NP overcharge level (1-5).
    pub fn overcharge_level(&self) -> (l: u32)
        ensures
            l == spec_overcharge_level(*self),
            1 <= l <= 5,
    {
        let raw = self.np_gauge / 100;
        if raw < 1 {
            1
        } else if raw > 5 {
            5
        } else {
            raw
        }
    }

    /// Damage multiplier against an enemy class, in thousandths.
    pub fn damage_multiplier(&self, enemy_class: &crate::enemy::EnemyClass) -> (m: u32)
        ensures
            m == spec_advantage(self.class, *enemy_class),
    {
        self.class.advantage_against(enemy_class)
    }

    /// Tick all skill cooldowns down by one turn.
    pub fn tick_cooldowns(&mut self)
        ensures
            final(self).skills@.len() == 3,
            forall|i: int| 0 <= i < 3 ==> (#[trigger] final(self).skills@[i]) == (Skill {
                cooldown: if old(self).skills@[i].cooldown > 0 {
                    (old(self).skills@[i].cooldown - 1) as u32
                } else {
                    0u32
                },
                ..old(self).skills@[i]
            }),
            *final(self) == (Servant { skills: final(self).skills, ..*old(self) }),
    {
        let mut i: usize = 0;
        while i < 3
            invariant
                i <= 3,
                self.skills@.len() == 3,
                forall|j: int| 0 <= j < i ==> (#[trigger] self.skills@[j]) == (Skill {
                    cooldown: if old(self).skills@[j].cooldown > 0 {
                        (old(self).skills@[j].cooldown - 1) as u32
                    } else {
                        0u32
                    },
                    ..old(self).skills@[j]
                }),
                forall|j: int| i <= j < 3 ==> (#[trigger] self.skills@[j])
                    == old(self).skills@[j],
                *self == (Servant { skills: self.skills, ..*old(self) }),
            decreases 3 - i,
        {
            let mut s = self.skills[i];
            s.tick_cooldown();
            self.skills[i] = s;
            i = i + 1;
        }
    }
}

} // verus!
