//! Enemies in battle: class, HP, break bars and derived threat level.

use vstd::prelude::*;

verus! {

/// Enemy class types (servant classes plus aggregate groupings).
#[derive(Debug, Clone, Copy, PartialEq, Eq, Structural, Hash)]
pub enum EnemyClass {
    Saber,
    Archer,
    Lancer,
    Rider,
    Caster,
    Assassin,
    Berserker,
    Ruler,
    Avenger,
    MoonCancer,
    AlterEgo,
    Foreigner,
    Pretender,
    Beast,
    Shielder,
    /// Knight class aggregate (Saber, Archer, Lancer).
    Knight,
    /// Cavalry class aggregate (Rider, Caster, Assassin).
    Cavalry,
    Unknown,
}

pub open spec fn spec_to_servant_class(c: EnemyClass) -> crate::servant::ServantClass {
    match c {
        EnemyClass::Saber => crate::servant::ServantClass::Saber,
        EnemyClass::Archer => crate::servant::ServantClass::Archer,
        EnemyClass::Lancer => crate::servant::ServantClass::Lancer,
        EnemyClass::Rider => crate::servant::ServantClass::Rider,
        EnemyClass::Caster => crate::servant::ServantClass::Caster,
        EnemyClass::Assassin => crate::servant::ServantClass::Assassin,
        EnemyClass::Berserker => crate::servant::ServantClass::Berserker,
        EnemyClass::Ruler => crate::servant::ServantClass::Ruler,
        EnemyClass::Avenger => crate::servant::ServantClass::Avenger,
        EnemyClass::MoonCancer => crate::servant::ServantClass::MoonCancer,
        EnemyClass::AlterEgo => crate::servant::ServantClass::AlterEgo,
        EnemyClass::Foreigner => crate::servant::ServantClass::Foreigner,
        EnemyClass::Pretender => crate::servant::ServantClass::Pretender,
        EnemyClass::Beast => crate::servant::ServantClass::Beast,
        EnemyClass::Shielder => crate::servant::ServantClass::Shielder,
        _ => crate::servant::ServantClass::Unknown,
    }
}

impl EnemyClass {
    /// Convert to a standard servant class (for reverse lookups).
    pub fn to_servant_class(&self) -> (c: crate::servant::ServantClass)
        ensures
            c == spec_to_servant_class(*self),
    {
        match self {
            EnemyClass::Saber => crate::servant::ServantClass::Saber,
            EnemyClass::Archer => crate::servant::ServantClass::Archer,
            EnemyClass::Lancer => crate::servant::ServantClass::Lancer,
            EnemyClass::Rider => crate::servant::ServantClass::Rider,
            EnemyClass::Caster => crate::servant::ServantClass::Caster,
            EnemyClass::Assassin => crate::servant::ServantClass::Assassin,
            EnemyClass::Berserker => crate::servant::ServantClass::Berserker,
            EnemyClass::Ruler => crate::servant::ServantClass::Ruler,
            EnemyClass::Avenger => crate::servant::ServantClass::Avenger,
            EnemyClass::MoonCancer => crate::servant::ServantClass::MoonCancer,
            EnemyClass::AlterEgo => crate::servant::ServantClass::AlterEgo,
            EnemyClass::Foreigner => crate::servant::ServantClass::Foreigner,
            EnemyClass::Pretender => crate::servant::ServantClass::Pretender,
            EnemyClass::Beast => crate::servant::ServantClass::Beast,
            EnemyClass::Shielder => crate::servant::ServantClass::Shielder,
            EnemyClass::Knight => crate::servant::ServantClass::Unknown,
            EnemyClass::Cavalry => crate::servant::ServantClass::Unknown,
            EnemyClass::Unknown => crate::servant::ServantClass::Unknown,
        }
    }

    /// Check if this is a knight class.
    pub fn is_knight(&self) -> (r: bool)
        ensures
            r == (*self is Saber || *self is Archer || *self is Lancer || *self is Knight),
    {
        matches!(
            self,
            EnemyClass::Saber | EnemyClass::Archer | EnemyClass::Lancer | EnemyClass::Knight
        )
    }

    /// Check if this is a cavalry class.
    pub fn is_cavalry(&self) -> (r: bool)
        ensures
            r == (*self is Rider || *self is Caster || *self is Assassin || *self is Cavalry),
    {
        matches!(
            self,
            EnemyClass::Rider | EnemyClass::Caster | EnemyClass::Assassin | EnemyClass::Cavalry
        )
    }
}

/// Enemy threat level, lowest to highest.
#[derive(Debug, Clone, Copy, PartialEq, Eq, Structural)]
pub enum ThreatLevel {
    Low,
    Medium,
    High,
    Critical,
}

/// Numeric rank of a threat level, for comparisons.
pub open spec fn spec_threat_rank(t: ThreatLevel) -> int {
    match t {
        ThreatLevel::Low => 0,
        ThreatLevel::Medium => 1,
        ThreatLevel::High => 2,
        ThreatLevel::Critical => 3,
    }
}

/// An enemy in battle.
#[derive(Debug, Clone, Copy)]
pub struct Enemy {
    /// Enemy class.
    pub class: EnemyClass,
    /// Current HP fraction in thousandths (0-1000).
    pub hp_permille: u32,
    /// Number of break bars remaining.
    pub break_bars: u32,
    /// Maximum break bars.
    pub max_break_bars: u32,
    /// Position in enemy lineup (0-2).
    pub position: usize,
    /// Whether the enemy is alive.
    pub is_alive: bool,
    /// Bounding box on screen (x, y, width, height).
    pub screen_bounds: Option<(i32, i32, i32, i32)>,
    /// Whether this is a boss enemy.
    pub is_boss: bool,
    /// Whether this enemy has a dangerous NP.
    pub has_dangerous_np: bool,
    /// Number of active buffs.
    pub buff_count: u32,
}

/// Critical if boss and dangerous; High if either; Medium behind break bars;
/// Low otherwise.
pub open spec fn spec_threat_level(e: Enemy) -> ThreatLevel {
    if e.is_boss && e.has_dangerous_np {
        ThreatLevel::Critical
    } else if e.is_boss || e.has_dangerous_np {
        ThreatLevel::High
    } else if e.break_bars > 0 {
        ThreatLevel::Medium
    } else {
        ThreatLevel::Low
    }
}

impl Default for Enemy {
    fn default() -> (e: Enemy)
        ensures
            e == spec_default_enemy(),
    {
        Enemy {
            class: EnemyClass::Unknown,
            hp_permille: 1000,
            break_bars: 0,
            max_break_bars: 0,
            position: 0,
            is_alive: true,
            screen_bounds: None,
            is_boss: false,
            has_dangerous_np: false,
            buff_count: 0,
        }
    }
}

pub open spec fn spec_default_enemy() -> Enemy {
    Enemy {
        class: EnemyClass::Unknown,
        hp_permille: 1000,
        break_bars: 0,
        max_break_bars: 0,
        position: 0,
        is_alive: true,
        screen_bounds: None,
        is_boss: false,
        has_dangerous_np: false,
        buff_count: 0,
    }
}

impl Enemy {
    /// Create a new enemy with the given class and position.
    pub fn new(class: EnemyClass, position: usize) -> (e: Enemy)
        ensures
            e == (Enemy { class, position, ..spec_default_enemy() }),
            e.class == class,
            e.position == position,
    {
        Enemy {
            class,
            hp_permille: 1000,
            break_bars: 0,
            max_break_bars: 0,
            position,
            is_alive: true,
            screen_bounds: None,
            is_boss: false,
            has_dangerous_np: false,
            buff_count: 0,
        }
    }

    /// Calculate the threat level of this enemy.
    pub fn threat_level(&self) -> (t: ThreatLevel)
        ensures
            t == spec_threat_level(*self),
    {
        if self.is_boss && self.has_dangerous_np {
            return ThreatLevel::Critical;
        }
        if self.is_boss || self.has_dangerous_np {
            return ThreatLevel::High;
        }
        if self.break_bars > 0 {
            return ThreatLevel::Medium;
        }
        ThreatLevel::Low
    }

    /// Check if this enemy has break bars.
    pub fn has_break_bars(&self) -> (r: bool)
        ensures
            r == (self.break_bars > 0),
    {
        self.break_bars > 0
    }

    /// Check if this enemy is on its last break bar.
    pub fn is_last_break_bar(&self) -> (r: bool)
        ensures
            r == (self.break_bars == 1),
    {
        self.break_bars == 1
    }

    /// Get the tap coordinates to target this enemy: the centre of its
    /// bounding box, if one is known.
    pub fn target_coords(&self) -> (r: Option<(i32, i32)>)
        requires
            self.screen_bounds matches Some((x, y, w, h)) ==> {
                &&& 0 <= w && 0 <= h
                &&& x + w / 2 <= i32::MAX
                &&& y + h / 2 <= i32::MAX
            },
        ensures
            r matches Some((cx, cy)) ==> self.screen_bounds matches Some((x, y, w, h))
                && cx == x + w / 2 && cy == y + h / 2,
            r is None <==> self.screen_bounds is None,
    {
        match self.screen_bounds {
            Some((x, y, w, h)) => Some((x + w / 2, y + h / 2)),
            None => None,
        }
    }

    /// Score of the damage still needed to down this enemy, in thousandths:
    /// the HP fraction, inflated by half for every remaining break bar.
    /// Lower means a quicker kill.
    pub fn damage_needed_score(&self) -> (s: u64)
        requires
            self.hp_permille <= 1000,
        ensures
            s == spec_damage_needed_score(*self),
    {
        let hp = self.hp_permille as u64;
        let break_factor: u64 = 1000 + 500 * (self.break_bars as u64);
        proof {
            assert(hp * break_factor <= 1000 * 2147483648500u64) by (nonlinear_arith)
                requires hp <= 1000, break_factor <= 2147483648500u64;
        }
        hp * break_factor / 1000
    }
}

pub open spec fn spec_damage_needed_score(e: Enemy) -> int {
    e.hp_permille * (1000 + 500 * e.break_bars) / 1000
}

/// Enemy group in a battle wave.
#[derive(Debug, Clone)]
pub struct EnemyWave {
    /// Enemies in this wave (up to 3).
    pub enemies: Vec<Enemy>,
    /// Wave number (1-indexed).
    pub wave_number: u32,
    /// Total waves in the battle.
    pub total_waves: u32,
}

/// The alive enemies of a wave, in lineup order.
pub open spec fn spec_alive_enemies(enemies: Seq<Enemy>) -> Seq<Enemy> {
    enemies.filter(|e: Enemy| e.is_alive)
}

impl EnemyWave {
    /// Create a new, empty wave.
    pub fn new(wave_number: u32, total_waves: u32) -> (w: EnemyWave)
        ensures
            w.enemies@ == Seq::<Enemy>::empty(),
            w.wave_number == wave_number,
            w.total_waves == total_waves,
    {
        EnemyWave { enemies: Vec::new(), wave_number, total_waves }
    }

    /// Get the number of alive enemies.
    pub fn alive_count(&self) -> (n: usize)
        ensures
            n == spec_alive_enemies(self.enemies@).len(),
    {
        let mut n: usize = 0;
        let mut i: usize = 0;
        while i < self.enemies.len()
            invariant
                i <= self.enemies@.len(),
                n == spec_alive_enemies(self.enemies@.take(i as int)).len(),
            decreases self.enemies@.len() - i,
        {
            proof {
                reveal_with_fuel(Seq::<_>::filter, 2);
                assert(self.enemies@.take(i + 1).drop_last() =~= self.enemies@.take(i as int));
                assert(self.enemies@.take(i + 1).last() == self.enemies@[i as int]);
            }
            if self.enemies[i].is_alive {
                n = n + 1;
            }
            i = i + 1;
        }
        proof {
            assert(self.enemies@.take(self.enemies@.len() as int) =~= self.enemies@);
        }
        n
    }

    /// Get the alive enemies, in lineup order.
    pub fn alive_enemies(&self) -> (alive: Vec<Enemy>)
        ensures
            alive@ == spec_alive_enemies(self.enemies@),
    {
        let mut alive: Vec<Enemy> = Vec::new();
        let mut i: usize = 0;
        while i < self.enemies.len()
            invariant
                i <= self.enemies@.len(),
                alive@ == spec_alive_enemies(self.enemies@.take(i as int)),
            decreases self.enemies@.len() - i,
        {
            proof {
                reveal_with_fuel(Seq::<_>::filter, 2);
                assert(self.enemies@.take(i + 1).drop_last() =~= self.enemies@.take(i as int));
                assert(self.enemies@.take(i + 1).last() == self.enemies@[i as int]);
            }
            if self.enemies[i].is_alive {
                alive.push(self.enemies[i]);
            }
            i = i + 1;
        }
        proof {
            assert(self.enemies@.take(self.enemies@.len() as int) =~= self.enemies@);
        }
        alive
    }

    /// Get the alive enemy with the lowest HP; the first one on ties.
    pub fn lowest_hp_enemy(&self) -> (r: Option<Enemy>)
        ensures
            r is None <==> spec_alive_enemies(self.enemies@).len() == 0,
            r matches Some(e) ==> {
                let alive = spec_alive_enemies(self.enemies@);
                exists|i: int|
                    0 <= i < alive.len() && alive[i] == e
                        && (forall|j: int| 0 <= j < alive.len() ==> e.hp_permille
                            <= #[trigger] alive[j].hp_permille)
                        && (forall|j: int| 0 <= j < i ==> e.hp_permille
                            < #[trigger] alive[j].hp_permille)
            },
    {
        let alive = self.alive_enemies();
        if alive.len() == 0 {
            return None;
        }
        let mut best: usize = 0;
        let mut i: usize = 1;
        while i < alive.len()
            invariant
                alive@.len() > 0,
                best < i <= alive@.len(),
                forall|j: int| 0 <= j < i ==> alive@[best as int].hp_permille
                    <= #[trigger] alive@[j].hp_permille,
                forall|j: int| 0 <= j < best ==> alive@[best as int].hp_permille
                    < #[trigger] alive@[j].hp_permille,
            decreases alive@.len() - i,
        {
            if alive[i].hp_permille < alive[best].hp_permille {
                best = i;
            }
            i = i + 1;
        }
        Some(alive[best])
    }

    /// Get the alive enemy with the highest threat; the last one on ties.
    pub fn highest_threat_enemy(&self) -> (r: Option<Enemy>)
        ensures
            r is None <==> spec_alive_enemies(self.enemies@).len() == 0,
            r matches Some(e) ==> {
                let alive = spec_alive_enemies(self.enemies@);
                exists|i: int|
                    0 <= i < alive.len() && alive[i] == e
                        && (forall|j: int| 0 <= j < alive.len()
                            ==> spec_threat_rank(#[trigger] alive[j].spec_threat())
                                <= spec_threat_rank(e.spec_threat()))
                        && (forall|j: int| i < j < alive.len()
                            ==> spec_threat_rank(#[trigger] alive[j].spec_threat())
                                < spec_threat_rank(e.spec_threat()))
            },
    {
        let alive = self.alive_enemies();
        if alive.len() == 0 {
            return None;
        }
        let mut best: usize = 0;
        let mut i: usize = 1;
        while i < alive.len()
            invariant
                alive@.len() > 0,
                best < i <= alive@.len(),
                forall|j: int| 0 <= j < i ==> spec_threat_rank(
                    #[trigger] alive@[j].spec_threat()) <= spec_threat_rank(
                    alive@[best as int].spec_threat()),
                forall|j: int| best < j < i ==> spec_threat_rank(
                    #[trigger] alive@[j].spec_threat()) < spec_threat_rank(
                    alive@[best as int].spec_threat()),
            decreases alive@.len() - i,
        {
            let ri = alive[i].threat_rank();
            let rb = alive[best].threat_rank();
            if ri >= rb {
                best = i;
            }
            i = i + 1;
        }
        Some(alive[best])
    }

    /// Check if this is the final wave.
    pub fn is_final_wave(&self) -> (r: bool)
        ensures
            r == (self.wave_number == self.total_waves),
    {
        self.wave_number == self.total_waves
    }

    /// Check if any alive enemy is a boss or has a dangerous NP.
    pub fn has_dangerous_enemy(&self) -> (r: bool)
        ensures
            r == exists|i: int|
                0 <= i < self.enemies@.len() && (#[trigger] self.enemies@[i]).is_alive
                    && (self.enemies@[i].has_dangerous_np || self.enemies@[i].is_boss),
    {
        let mut i: usize = 0;
        while i < self.enemies.len()
            invariant
                i <= self.enemies@.len(),
                forall|j: int| 0 <= j < i ==> !((#[trigger] self.enemies@[j]).is_alive
                    && (self.enemies@[j].has_dangerous_np || self.enemies@[j].is_boss)),
            decreases self.enemies@.len() - i,
        {
            let e = &self.enemies[i];
            if e.is_alive && (e.has_dangerous_np || e.is_boss) {
                return true;
            }
            i = i + 1;
        }
        false
    }
}

impl Enemy {
    /// The threat level as a spec value.
    pub open spec fn spec_threat(&self) -> ThreatLevel {
        spec_threat_level(*self)
    }

    /// Numeric threat rank (0-3), for comparisons.
    pub fn threat_rank(&self) -> (r: u32)
        ensures
            r == spec_threat_rank(self.spec_threat()),
    {
        if self.is_boss && self.has_dangerous_np {
            3
        } else if self.is_boss || self.has_dangerous_np {
            2
        } else if self.break_bars > 0 {
            1
        } else {
            0
        }
    }
}

} // verus!
