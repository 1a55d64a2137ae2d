use fgo_sheba::enemy::{Enemy, EnemyClass, EnemyWave, ThreatLevel};
use fgo_sheba::servant::{Servant, ServantClass, Skill};

#[test]
fn test_threat_level() {
    let mut enemy = Enemy::default();
    assert_eq!(enemy.threat_level(), ThreatLevel::Low);

    enemy.break_bars = 2;
    assert_eq!(enemy.threat_level(), ThreatLevel::Medium);

    enemy.is_boss = true;
    assert_eq!(enemy.threat_level(), ThreatLevel::High);

    enemy.has_dangerous_np = true;
    assert_eq!(enemy.threat_level(), ThreatLevel::Critical);
}

#[test]
fn test_wave_alive_count() {
    let mut wave = EnemyWave::new(1, 3);
    wave.enemies.push(Enemy::new(EnemyClass::Saber, 0));
    wave.enemies.push(Enemy::new(EnemyClass::Archer, 1));
    wave.enemies.push(Enemy::new(EnemyClass::Lancer, 2));

    assert_eq!(wave.alive_count(), 3);

    wave.enemies[1].is_alive = false;
    assert_eq!(wave.alive_count(), 2);
}

#[test]
fn test_class_advantage() {
    let saber = ServantClass::Saber;
    assert_eq!(saber.advantage_against(&EnemyClass::Lancer), 2000);
    assert_eq!(saber.advantage_against(&EnemyClass::Archer), 500);
    assert_eq!(saber.advantage_against(&EnemyClass::Saber), 1000);
}

#[test]
fn test_np_gauge() {
    let mut servant = Servant::default();
    assert!(!servant.can_np());

    servant.np_gauge = 100;
    assert!(servant.can_np());
    assert!(!servant.can_overcharge());

    servant.np_gauge = 200;
    assert!(servant.can_overcharge());
    assert_eq!(servant.overcharge_level(), 2);
}

#[test]
fn test_skill_cooldown() {
    let mut skill = Skill {
        cooldown: 0,
        max_cooldown: 5,
        ..Default::default()
    };

    assert!(skill.is_ready());
    skill.use_skill();
    assert!(!skill.is_ready());
    assert_eq!(skill.cooldown, 5);

    skill.tick_cooldown();
    assert_eq!(skill.cooldown, 4);
}

#[test]
fn test_lowest_hp_enemy() {
    let mut wave = EnemyWave::new(1, 3);
    wave.enemies.push(Enemy {
        hp_permille: 700,
        position: 0,
        ..Default::default()
    });
    wave.enemies.push(Enemy {
        hp_permille: 300,
        position: 1,
        ..Default::default()
    });
    let lowest = wave.lowest_hp_enemy().unwrap();
    assert_eq!(lowest.position, 1);
    assert_eq!(wave.highest_threat_enemy().unwrap().position, 1);
}

#[test]
fn test_damage_needed_score() {
    let enemy = Enemy {
        hp_permille: 500,
        break_bars: 2,
        ..Default::default()
    };
    assert_eq!(enemy.damage_needed_score(), 1000);
    assert!(enemy.has_break_bars());
    assert!(!enemy.is_last_break_bar());
}

#[test]
fn test_enemy_class_groups() {
    assert!(EnemyClass::Saber.is_knight());
    assert!(EnemyClass::Knight.is_knight());
    assert!(!EnemyClass::Rider.is_knight());
    assert!(EnemyClass::Caster.is_cavalry());
    assert!(!EnemyClass::Berserker.is_cavalry());
    assert_eq!(EnemyClass::Beast.to_servant_class(), ServantClass::Beast);
    assert_eq!(EnemyClass::Cavalry.to_servant_class(), ServantClass::Unknown);
}

#[test]
fn test_weak_against() {
    assert!(ServantClass::Saber.weak_against(&EnemyClass::Archer));
    assert!(!ServantClass::Saber.weak_against(&EnemyClass::Lancer));
}

#[test]
fn test_servant_tick_cooldowns() {
    let mut servant = Servant::new(ServantClass::Saber, 0);
    servant.skills[0].cooldown = 2;
    servant.skills[2].cooldown = 1;
    servant.tick_cooldowns();
    assert_eq!(servant.skills[0].cooldown, 1);
    assert_eq!(servant.skills[1].cooldown, 0);
    assert_eq!(servant.skills[2].cooldown, 0);
}
