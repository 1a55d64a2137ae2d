use fgo_sheba::cards::CardType;
use fgo_sheba::settings::{CardPriority, Settings};
use fgo_sheba::strategy::{BattleStrategy, StrategyType, WaveStrategy};

#[test]
fn test_default_settings() {
    let settings = Settings::default();
    assert_eq!(settings.np_threshold, 100);
    assert!(settings.target_low_hp_first);
}

#[test]
fn test_card_priority_score() {
    let priority = CardPriority::default();
    assert_eq!(priority.score(CardType::Buster), 3);
    assert_eq!(priority.score(CardType::Arts), 2);
    assert_eq!(priority.score(CardType::Quick), 1);
    assert_eq!(priority.score(CardType::NP), 0);
}

#[test]
fn test_farming_preset() {
    let settings = Settings::farming_preset();
    assert!(settings.automation.auto_continue);
    assert!(settings.automation.loop_farming);
    assert!(settings.skill_settings.auto_use_skills);
}

#[test]
fn test_boss_preset() {
    let settings = Settings::boss_fight_preset();
    assert!(!settings.automation.loop_farming);
    assert!(!settings.skill_settings.auto_use_skills);
    assert!(settings.prioritize_class_advantage);
}

#[test]
fn test_np_loop_preset() {
    let settings = Settings::np_loop_preset();
    assert_eq!(settings.card_priority.first_choice, CardType::Arts);
    assert!(!settings.card_priority.prefer_brave_chains);
    assert!(settings.skill_settings.np_charge_priority);
}

#[test]
fn test_strategy_creation() {
    let strategy = BattleStrategy::new(StrategyType::Balanced);
    assert_eq!(strategy.strategy_type(), StrategyType::Balanced);
}

#[test]
fn test_np_loop_strategy() {
    let strategy = BattleStrategy::new(StrategyType::NPLoop);
    assert!(strategy.card_weights.arts > strategy.card_weights.buster);
    assert!(strategy.front_load_skills);
}

#[test]
fn test_max_damage_strategy() {
    let strategy = BattleStrategy::new(StrategyType::MaxDamage);
    assert!(strategy.card_weights.buster > strategy.card_weights.arts);
    assert!(strategy.save_np_for_boss);
}

#[test]
fn test_wave_np_count() {
    let strategy = BattleStrategy::new(StrategyType::MaxDamage);
    assert_eq!(strategy.np_count_for_wave(1), 0);
    assert_eq!(strategy.np_count_for_wave(2), 1);
    assert_eq!(strategy.np_count_for_wave(3), 3);
}

#[test]
fn test_should_np() {
    let strategy = BattleStrategy::new(StrategyType::Balanced);
    assert!(strategy.should_np_on_wave(1, 3, 0));
    assert!(!strategy.should_np_on_wave(1, 3, 1));
    assert!(strategy.should_np_on_wave(3, 3, 0));
}

#[test]
fn test_wave_np_count_clamped() {
    let strategy = BattleStrategy::new(StrategyType::Balanced);
    assert_eq!(strategy.np_count_for_wave(5), 2);
    assert_eq!(strategy.np_count_for_wave(0), 1);
}

#[test]
fn test_card_weight_lookup() {
    let strategy = BattleStrategy::new(StrategyType::MaxDamage);
    assert_eq!(strategy.get_card_weight(&CardType::Buster), 2000);
    assert_eq!(strategy.get_card_weight(&CardType::Quick), 600);
    assert_eq!(strategy.get_card_weight(&CardType::NP), 1000);
}

#[test]
fn test_wave_strategy_builders() {
    let ws = WaveStrategy::new(2)
        .with_np_count(3)
        .with_skill(0, 1)
        .with_single_target(true);
    assert_eq!(ws.wave, 2);
    assert_eq!(ws.target_np_count, 3);
    assert_eq!(ws.priority_skills, vec![(0, 1)]);
    assert!(ws.single_target_focus);
}
