use fgo_sheba::battle::{BattlePhase, BattleState};
use fgo_sheba::card_selector::CardSelector;
use fgo_sheba::cards::{Card, CardType, ChainType};
use fgo_sheba::enemy::{Enemy, EnemyClass, EnemyWave};
use fgo_sheba::enemy_priority::EnemyPrioritizer;
use fgo_sheba::engine::BattleAI;
use fgo_sheba::np_timing::NPTimingEngine;
use fgo_sheba::servant::{Servant, ServantClass, Skill};
use fgo_sheba::settings::Settings;
use fgo_sheba::skill_usage::SkillDecisionEngine;
use fgo_sheba::strategy::StrategyType;
use fgo_sheba::ShebaAction;

#[test]
fn test_card_selector_creation() {
    let selector = CardSelector::new();
    assert!(selector.chain_weight > 1000);
}

#[test]
fn test_chain_detection() {
    let selector = CardSelector::new();

    let cards = vec![
        Card::new(CardType::Buster, 0, 0),
        Card::new(CardType::Buster, 1, 1),
        Card::new(CardType::Buster, 2, 2),
        Card::new(CardType::Arts, 0, 3),
        Card::new(CardType::Quick, 1, 4),
    ];

    assert!(selector.can_form_chain(&cards, ChainType::Buster));
    assert!(!selector.can_form_chain(&cards, ChainType::Arts));
}

#[test]
fn card_selector_test_brave_chain_detection() {
    let selector = CardSelector::new();

    let cards = vec![
        Card::new(CardType::Buster, 0, 0),
        Card::new(CardType::Arts, 0, 1),
        Card::new(CardType::Quick, 0, 2),
        Card::new(CardType::Buster, 1, 3),
        Card::new(CardType::Arts, 2, 4),
    ];

    assert!(selector.can_form_brave_chain(&cards, 0));
    assert!(!selector.can_form_brave_chain(&cards, 1));
}

#[test]
fn test_prioritizer_creation() {
    let prioritizer = EnemyPrioritizer::new();
    assert!(prioritizer.hp_weight > 0);
}

#[test]
fn test_low_hp_priority() {
    let prioritizer = EnemyPrioritizer::new();
    let settings = Settings::default();

    let mut wave = EnemyWave::new(1, 3);
    wave.enemies.push(Enemy {
        hp_permille: 800,
        position: 0,
        ..Default::default()
    });
    wave.enemies.push(Enemy {
        hp_permille: 200,
        position: 1,
        ..Default::default()
    });
    wave.enemies.push(Enemy {
        hp_permille: 500,
        position: 2,
        ..Default::default()
    });

    let target = prioritizer.prioritize(&wave, &[], &settings);
    assert_eq!(target, Some(1));
}

#[test]
fn test_threat_priority() {
    let prioritizer = EnemyPrioritizer::new();
    let mut settings = Settings::default();
    settings.target_low_hp_first = false;

    let mut wave = EnemyWave::new(1, 3);
    wave.enemies.push(Enemy {
        hp_permille: 500,
        position: 0,
        ..Default::default()
    });
    wave.enemies.push(Enemy {
        hp_permille: 500,
        position: 1,
        is_boss: true,
        has_dangerous_np: true,
        ..Default::default()
    });

    let target = prioritizer.prioritize(&wave, &[], &settings);
    assert_eq!(target, Some(1));
}

#[test]
fn test_single_alive_enemy_targeted() {
    let prioritizer = EnemyPrioritizer::new();
    let settings = Settings::default();

    let mut wave = EnemyWave::new(1, 3);
    wave.enemies.push(Enemy {
        hp_permille: 900,
        position: 0,
        is_alive: false,
        ..Default::default()
    });
    wave.enemies.push(Enemy {
        hp_permille: 1000,
        position: 2,
        is_boss: false,
        ..Default::default()
    });
    let target = prioritizer.prioritize(&wave, &[], &settings);
    assert_eq!(target, Some(2));

    wave.enemies[1].is_alive = false;
    assert_eq!(prioritizer.prioritize(&wave, &[], &settings), None);
}

#[test]
fn test_aoe_suggestion() {
    let prioritizer = EnemyPrioritizer::new();

    let mut wave = EnemyWave::new(1, 3);
    wave.enemies.push(Enemy {
        hp_permille: 500,
        position: 0,
        ..Default::default()
    });
    wave.enemies.push(Enemy {
        hp_permille: 600,
        position: 1,
        ..Default::default()
    });
    wave.enemies.push(Enemy {
        hp_permille: 550,
        position: 2,
        ..Default::default()
    });

    assert!(prioritizer.should_use_aoe(&wave));
}

#[test]
fn test_aoe_not_suggested() {
    let prioritizer = EnemyPrioritizer::new();

    let mut wave = EnemyWave::new(1, 3);
    wave.enemies.push(Enemy {
        hp_permille: 200,
        position: 0,
        ..Default::default()
    });
    wave.enemies.push(Enemy {
        hp_permille: 900,
        position: 1,
        ..Default::default()
    });
    assert!(!prioritizer.should_use_aoe(&wave));

    let mut lone = EnemyWave::new(1, 3);
    lone.enemies.push(Enemy {
        hp_permille: 500,
        position: 0,
        ..Default::default()
    });
    assert!(!prioritizer.should_use_aoe(&lone));
}

#[test]
fn test_priority_list_score() {
    let prioritizer = EnemyPrioritizer::new();
    let mut settings = Settings::default();
    settings.prioritize_class_advantage = false;

    let mut wave = EnemyWave::new(1, 3);
    wave.enemies.push(Enemy {
        hp_permille: 500,
        position: 0,
        ..Default::default()
    });
    let list = prioritizer.get_priority_list(&wave, &[], &settings);
    assert_eq!(list.len(), 1);
    // (1.0 - 0.5) * 1.0 * 10 + 1 * 1.5 = 6.5, in thousandths
    assert_eq!(list[0].score, 6500);
    assert_eq!(list[0].position, 0);
}

#[test]
fn test_can_kill_in_one_turn() {
    let prioritizer = EnemyPrioritizer::new();
    let weak = Enemy {
        hp_permille: 200,
        ..Default::default()
    };
    assert!(prioritizer.can_kill_in_one_turn(&weak, 300));
    assert!(!prioritizer.can_kill_in_one_turn(&weak, 100));
    let barred = Enemy {
        hp_permille: 200,
        break_bars: 1,
        ..Default::default()
    };
    assert!(!prioritizer.can_kill_in_one_turn(&barred, 900));
}

#[test]
fn test_battle_ai_creation() {
    let ai = BattleAI::new();
    assert!(matches!(ai.strategy.strategy_type(), StrategyType::Balanced));
}

#[test]
fn test_strategy_setting() {
    let mut ai = BattleAI::new();
    ai.set_strategy(StrategyType::NPLoop);
    assert!(matches!(ai.strategy.strategy_type(), StrategyType::NPLoop));
}

#[test]
fn test_np_engine_creation() {
    let engine = NPTimingEngine::new();
    assert!(engine.early_wave_threshold > 0);
}

#[test]
fn test_np_chain_bonus() {
    let engine = NPTimingEngine::new();
    assert!(!engine.has_np_chain_bonus(2));
    assert!(engine.has_np_chain_bonus(3));
}

#[test]
fn test_chain_overcharge() {
    let engine = NPTimingEngine::new();
    assert_eq!(engine.chain_overcharge(100, 0), 100);
    assert_eq!(engine.chain_overcharge(100, 1), 200);
    assert_eq!(engine.chain_overcharge(100, 2), 300);
    assert_eq!(engine.chain_overcharge(300, 2), 500);
}

#[test]
fn test_should_wait_for_np() {
    let engine = NPTimingEngine::new();

    let mut servant = Servant::new(ServantClass::Saber, 0);
    let mut state = BattleState::new();
    state.current_wave = EnemyWave::new(1, 3);

    servant.np_gauge = 50;
    assert!(!engine.should_wait_for_np(&servant, &state));

    servant.np_gauge = 85;
    assert!(engine.should_wait_for_np(&servant, &state));

    state.current_wave = EnemyWave::new(3, 3);
    assert!(!engine.should_wait_for_np(&servant, &state));
}

#[test]
fn test_estimate_np_damage_neutral() {
    let engine = NPTimingEngine::new();
    let servant = Servant::new(ServantClass::Saber, 0);
    let state = BattleState::new();
    // Buster NP at base overcharge, no buffs, no enemies: 1.5x neutral.
    assert_eq!(engine.estimate_np_damage(&servant, &state), 1500);
}

#[test]
fn test_skill_engine_creation() {
    let engine = SkillDecisionEngine::new();
    assert!(engine.np_charge_priority > 0);
}

#[test]
fn test_should_use_skills() {
    let engine = SkillDecisionEngine::new();
    let settings = Settings::default();

    let mut state = BattleState::new();
    state.servants.push(Servant {
        skills: [
            Skill {
                cooldown: 0,
                ..Default::default()
            },
            Skill::default(),
            Skill::default(),
        ],
        ..Servant::new(ServantClass::Saber, 0)
    });

    assert!(engine.should_use_skills(&state, &settings));

    let mut settings = settings;
    settings.skill_settings.auto_use_skills = false;
    assert!(!engine.should_use_skills(&state, &settings));
}

#[test]
fn test_no_cooldown_recommendation() {
    let engine = SkillDecisionEngine::new();
    let settings = Settings::default();

    let mut state = BattleState::new();
    let mut servant = Servant::new(ServantClass::Saber, 0);
    servant.skills[0] = Skill {
        cooldown: 4,
        is_damage_buff: true,
        ..Default::default()
    };
    servant.skills[1] = Skill {
        cooldown: 0,
        is_damage_buff: true,
        ..Default::default()
    };
    state.servants.push(servant);
    state.master_skills.available = false;

    let recs = engine.recommend_skills(&state, &settings);
    assert_eq!(recs.len(), 1);
    assert_eq!(recs[0].skill_idx, 1);
    assert!(recs[0].priority > 500);
}

#[test]
fn test_charge_skill_crossing_threshold() {
    let engine = SkillDecisionEngine::new();
    let settings = Settings::default();

    let mut state = BattleState::new();
    let mut servant = Servant::new(ServantClass::Saber, 0);
    servant.np_gauge = 70;
    servant.skills[0] = Skill {
        cooldown: 0,
        is_np_charge: true,
        np_charge_amount: 30,
        requires_target: true,
        ..Default::default()
    };
    state.servants.push(servant);
    state.master_skills.available = false;

    let recs = engine.recommend_skills(&state, &settings);
    assert_eq!(recs.len(), 1);
    // Crossing the full-gauge threshold scores triple priority.
    assert_eq!(recs[0].priority, 6000);
    assert_eq!(recs[0].target, Some(0));
}

#[test]
fn test_fallback_under_three_cards() {
    let selector = CardSelector::new();
    let settings = Settings::default();
    let wave = EnemyWave::new(1, 3);

    let cards = vec![
        Card::new(CardType::Quick, 0, 0),
        Card::new(CardType::Buster, 1, 1),
    ];
    let picked = selector.select_cards(&cards, &[], &wave, &[], &settings);
    assert_eq!(picked.len(), 2);
    // Buster outranks Quick under the default priority.
    assert_eq!(picked[0].position, 1);
    assert_eq!(picked[1].position, 0);

    let none = selector.select_cards(&[], &[], &wave, &[], &settings);
    assert!(none.is_empty());
}

#[test]
fn test_select_cards_prefers_buster_chain() {
    let selector = CardSelector::new();
    let settings = Settings::default();
    let wave = EnemyWave::new(1, 3);

    let cards = vec![
        Card::new(CardType::Buster, 0, 0),
        Card::new(CardType::Buster, 1, 1),
        Card::new(CardType::Buster, 2, 2),
        Card::new(CardType::Arts, 0, 3),
        Card::new(CardType::Quick, 1, 4),
    ];
    let picked = selector.select_cards(&cards, &[], &wave, &[], &settings);
    assert_eq!(picked.len(), 3);
    assert!(picked.iter().all(|c| c.card_type == CardType::Buster));
}

#[test]
fn test_find_best_first_card() {
    let selector = CardSelector::new();
    let settings = Settings::default();

    let mut c1 = Card::new(CardType::Buster, 0, 0);
    c1.confidence = 600;
    let mut c2 = Card::new(CardType::Buster, 1, 1);
    c2.confidence = 900;
    let c3 = Card::new(CardType::Arts, 2, 2);
    let best = selector.find_best_first_card(&[c1, c2, c3], &settings).unwrap();
    assert_eq!(best.position, 1);

    assert!(selector.find_best_first_card(&[c3], &settings).is_none());
}

#[test]
fn test_retarget_before_cards() {
    let ai = BattleAI::new();
    let settings = Settings::default();

    let mut state = BattleState::new();
    state.phase = BattlePhase::CardSelection;
    state.current_wave.enemies.push(Enemy {
        hp_permille: 300,
        position: 0,
        ..Default::default()
    });
    state.current_wave.enemies.push(Enemy {
        hp_permille: 900,
        position: 1,
        ..Default::default()
    });
    state.target_enemy = Some(1);
    state.available_cards = vec![
        Card::new(CardType::Buster, 0, 0),
        Card::new(CardType::Arts, 0, 1),
        Card::new(CardType::Quick, 0, 2),
    ];

    // Low-HP-first targeting picks position 0, which differs from the
    // recorded target: the call retargets and selects no cards.
    let action = ai.decide_action(&state, &settings);
    assert_eq!(action, ShebaAction::TargetEnemy { enemy_idx: 0 });

    state.target_enemy = Some(0);
    let action = ai.decide_action(&state, &settings);
    assert!(matches!(action, ShebaAction::SelectCards { .. }));
}

#[test]
fn test_card_selection_assembles_three_slots() {
    let ai = BattleAI::new();
    let settings = Settings::default();

    let mut state = BattleState::new();
    state.phase = BattlePhase::CardSelection;
    state.current_wave.enemies.push(Enemy {
        hp_permille: 500,
        position: 0,
        ..Default::default()
    });
    state.target_enemy = Some(0);
    state.available_cards = vec![
        Card::new(CardType::Buster, 0, 0),
        Card::new(CardType::Buster, 1, 1),
        Card::new(CardType::Buster, 2, 2),
        Card::new(CardType::Arts, 0, 3),
        Card::new(CardType::Quick, 1, 4),
    ];

    let action = ai.decide_action(&state, &settings);
    match action {
        ShebaAction::SelectCards { card_indices } => {
            assert_eq!(card_indices.len(), 3);
            assert!(card_indices.iter().all(|i| *i < 5));
        }
        other => panic!("expected a card selection, got {:?}", other),
    }
}

#[test]
fn test_phase_actions() {
    let ai = BattleAI::new();
    let settings = Settings::default();
    let mut state = BattleState::new();

    state.phase = BattlePhase::PreBattle;
    assert_eq!(ai.decide_action(&state, &settings), ShebaAction::Wait { duration_ms: 500 });

    state.phase = BattlePhase::AttackPhase;
    assert_eq!(
        ai.decide_action(&state, &settings),
        ShebaAction::Wait { duration_ms: settings.timings.attack_wait }
    );

    state.phase = BattlePhase::Victory;
    assert_eq!(ai.decide_action(&state, &settings), ShebaAction::NoOp);

    state.phase = BattlePhase::CommandPhase;
    assert_eq!(ai.decide_action(&state, &settings), ShebaAction::TapAttack);
}

#[test]
fn test_command_phase_uses_top_skill() {
    let ai = BattleAI::new();
    let settings = Settings::default();

    let mut state = BattleState::new();
    state.phase = BattlePhase::CommandPhase;
    let mut servant = Servant::new(ServantClass::Saber, 0);
    servant.skills[2] = Skill {
        cooldown: 0,
        is_damage_buff: true,
        ..Default::default()
    };
    state.servants.push(servant);
    state.master_skills.available = false;

    let action = ai.decide_action(&state, &settings);
    assert_eq!(
        action,
        ShebaAction::UseSkill { servant_idx: 0, skill_idx: 2, target: None }
    );
}

#[test]
fn test_decide_np_usage_orders_by_type() {
    let engine = NPTimingEngine::new();
    let settings = Settings::default();

    let mut state = BattleState::new();
    state.current_wave = EnemyWave::new(3, 3);
    let mut buster = Servant::new(ServantClass::Saber, 0);
    buster.np_gauge = 100;
    buster.np_type = fgo_sheba::servant::NPType::Buster;
    let mut arts = Servant::new(ServantClass::Archer, 1);
    arts.np_gauge = 100;
    arts.np_type = fgo_sheba::servant::NPType::Arts;
    state.servants.push(buster);
    state.servants.push(arts);
    state.np_available = [true, true, false];

    let users = engine.decide_np_usage(&state, &settings);
    // Arts fires first for the gauge refund, Buster last for damage.
    assert_eq!(users, vec![1, 0]);
}

#[test]
fn test_aoe_boundary_spread() {
    let prioritizer = EnemyPrioritizer::new();

    let mut wave = EnemyWave::new(1, 3);
    wave.enemies.push(Enemy {
        hp_permille: 200,
        position: 0,
        ..Default::default()
    });
    wave.enemies.push(Enemy {
        hp_permille: 500,
        position: 1,
        ..Default::default()
    });
    // A spread of exactly 0.3 is not close enough.
    assert!(!prioritizer.should_use_aoe(&wave));
}

#[test]
fn test_wave_skill_order() {
    let engine = SkillDecisionEngine::new();
    let mut settings = Settings::default();
    settings.skill_settings.skill_order = Some(vec![
        fgo_sheba::settings::SkillCommand {
            servant: 0,
            skill: 1,
            target: None,
            wave: Some(2),
            turn: None,
        },
        fgo_sheba::settings::SkillCommand {
            servant: 1,
            skill: 0,
            target: Some(2),
            wave: None,
            turn: None,
        },
    ]);

    let recs = engine.get_wave_skill_order(1, &settings);
    assert_eq!(recs.len(), 1);
    assert_eq!(recs[0].servant_idx, 1);
    assert_eq!(recs[0].priority, 10000);

    let recs = engine.get_wave_skill_order(2, &settings);
    assert_eq!(recs.len(), 2);

    settings.skill_settings.skill_order = None;
    assert!(engine.get_wave_skill_order(1, &settings).is_empty());
}

#[test]
fn test_servants_with_np() {
    let mut state = BattleState::new();
    let mut a = Servant::new(ServantClass::Saber, 0);
    a.np_gauge = 100;
    let b = Servant::new(ServantClass::Archer, 1);
    let mut c = Servant::new(ServantClass::Lancer, 2);
    c.np_gauge = 250;
    state.servants.push(a);
    state.servants.push(b);
    state.servants.push(c);

    assert_eq!(state.servants_with_np(), vec![0, 2]);
    assert_eq!(state.total_np_gauge(), 350);
    assert_eq!(state.alive_servant_count(), 3);
}

#[test]
fn test_master_party_buff_needs_final_wave() {
    let engine = SkillDecisionEngine::new();
    let settings = Settings::default();

    let mut state = BattleState::new();
    let mut a = Servant::new(ServantClass::Saber, 0);
    a.np_gauge = 100;
    let mut b = Servant::new(ServantClass::Archer, 1);
    b.np_gauge = 100;
    state.servants.push(a);
    state.servants.push(b);

    // Wave 1 of 3: the party-wide buff stays unused, but the
    // single-target buff finds the first NP-ready servant.
    let recs = engine.recommend_skills(&state, &settings);
    assert_eq!(recs.len(), 1);
    assert!(recs[0].is_master_skill);
    assert_eq!(recs[0].skill_idx, 1);
    assert_eq!(recs[0].target, Some(0));

    // Final wave: the party-wide buff outranks it.
    state.current_wave = EnemyWave::new(3, 3);
    let recs = engine.recommend_skills(&state, &settings);
    assert_eq!(recs.len(), 2);
    assert_eq!(recs[0].skill_idx, 0);
    assert_eq!(recs[0].priority, 2000);
}
