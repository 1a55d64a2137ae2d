use fgo_sheba::battle::{BattlePhase, BattleState, MasterSkills};
use fgo_sheba::cards::{Card, CardType};
use fgo_sheba::color::{color_to_class, is_colorful, is_hp_bar_color, is_reddish};
use fgo_sheba::enemy::{EnemyClass, EnemyWave};
use fgo_sheba::input::{InputGenerator, ScreenCoordinates, ScreenElement};
use fgo_sheba::servant::{Servant, ServantClass};
use fgo_sheba::state::{GameState, UIState};
use fgo_sheba::ShebaAction;

#[test]
fn test_battle_state_initialization() {
    let state = BattleState::new();
    assert_eq!(state.turn, 1);
    assert_eq!(state.phase, BattlePhase::Unknown);
    assert!(state.servants.is_empty());
}

#[test]
fn test_card_selection() {
    let mut state = BattleState::new();
    state.servants.push(Servant::new(ServantClass::Saber, 0));
    state.servants[0].np_gauge = 100;

    let cards = vec![
        Card::new(CardType::Buster, 0, 0),
        Card::new(CardType::Arts, 0, 1),
        Card::new(CardType::Quick, 0, 2),
        Card::new(CardType::Buster, 0, 3),
        Card::new(CardType::Arts, 0, 4),
    ];
    state.enter_card_selection(cards);

    assert_eq!(state.available_cards.len(), 5);
    assert!(state.np_available[0]);

    state.select_np(0);
    assert!(!state.np_available[0]);
    assert_eq!(state.selected_cards.len(), 1);
}

#[test]
fn test_wave_progression() {
    let mut state = BattleState::new();
    state.total_waves = 3;
    state.current_wave = EnemyWave::new(1, 3);

    assert!(!state.is_final_wave());

    state.next_wave();
    assert_eq!(state.current_wave.wave_number, 2);

    state.next_wave();
    assert!(state.is_final_wave());
}

#[test]
fn test_master_skills() {
    let mut ms = MasterSkills::default();
    assert!(ms.is_ready(0));
    assert!(!ms.is_ready(3));
    ms.use_skill(1, 10);
    assert!(!ms.is_ready(1));
    ms.tick_cooldowns();
    assert_eq!(ms.cooldowns[1], 9);
}

#[test]
fn test_state_transitions() {
    let mut state = GameState::new();

    state.update_ui_state(UIState::MainMenu);
    assert_eq!(state.ui_state, UIState::MainMenu);
    assert_eq!(state.frames_in_state, 0);

    state.update_ui_state(UIState::MainMenu);
    assert_eq!(state.frames_in_state, 1);

    state.update_ui_state(UIState::BattleCommand);
    assert!(state.battle.is_some());
}

#[test]
fn test_battle_detection() {
    let mut state = GameState::new();
    assert!(!state.is_in_battle());

    state.update_ui_state(UIState::BattleCommand);
    assert!(state.is_in_battle());

    state.update_ui_state(UIState::BattleCards);
    assert!(state.is_in_battle());
}

#[test]
fn test_run_complete_transition() {
    let mut state = GameState::new();
    state.update_ui_state(UIState::BattleCommand);
    state.update_ui_state(UIState::BattleAttack);
    state.update_ui_state(UIState::BattleResult);
    state.update_ui_state(UIState::QuestComplete);
    assert_eq!(state.runs_completed, 1);
    assert!(state.battle.is_none());
    state.update_ui_state(UIState::MainMenu);
    assert_eq!(state.loop_count, 1);
}

#[test]
fn test_is_stuck() {
    let mut state = GameState::new();
    state.update_ui_state(UIState::Dialog);
    for _ in 0..20 {
        state.update_ui_state(UIState::Dialog);
    }
    assert!(state.is_stuck(10));
    assert!(!state.is_stuck(30));
}

#[test]
fn test_coordinate_scaling() {
    let coords = ScreenCoordinates::new(2560, 1440);

    let scaled_x = coords.scale_x(960);
    let scaled_y = coords.scale_y(540);

    assert_eq!(scaled_x, 1280);
    assert_eq!(scaled_y, 720);
}

#[test]
fn test_card_coords() {
    let coords = ScreenCoordinates::new(1920, 1080);

    let (x0, y0) = coords.get_card_coords(0);
    let (x1, y1) = coords.get_card_coords(1);

    assert!(x1 > x0);
    assert_eq!(y0, y1);
}

#[test]
fn test_generator() {
    let gen = InputGenerator::new(1920, 1080);

    let action = gen.tap_attack();
    match action {
        ShebaAction::Tap { x, y } => {
            assert!(x > 1500);
            assert!(y > 400 && y < 600);
        }
        _ => panic!("Expected tap action"),
    }
}

#[test]
fn test_card_selection_sequence() {
    let gen = InputGenerator::new(1920, 1080);

    let actions = gen.select_cards(&[0, 1, 2]);

    assert_eq!(actions.len(), 6);

    assert!(matches!(actions[0], ShebaAction::Tap { .. }));
    assert!(matches!(actions[1], ShebaAction::Wait { .. }));
}

#[test]
fn test_np_slot_taps_np_coords() {
    let gen = InputGenerator::new(1920, 1080);
    let coords = ScreenCoordinates::new(1920, 1080);

    let actions = gen.select_cards(&[5]);
    let (nx, ny) = coords.get_np_coords(0);
    assert_eq!(actions[0], ShebaAction::Tap { x: nx, y: ny });
}

#[test]
fn test_skill_sequence_with_target() {
    let gen = InputGenerator::new(1920, 1080);
    let actions = gen.use_skill(1, 2, Some(0));
    assert_eq!(actions.len(), 4);
    let untargeted = gen.use_skill(1, 2, None);
    assert_eq!(untargeted.len(), 2);
}

#[test]
fn test_master_skill_sequence() {
    let gen = InputGenerator::new(1920, 1080);
    assert_eq!(gen.use_master_skill(0, None).len(), 4);
    assert_eq!(gen.use_master_skill(0, Some(1)).len(), 6);
}

#[test]
fn test_scroll_actions() {
    let gen = InputGenerator::new(1920, 1080);
    match gen.scroll_down() {
        ShebaAction::Swipe { start_y, end_y, .. } => assert!(start_y > end_y),
        _ => panic!("Expected swipe"),
    }
    match gen.scroll_up() {
        ShebaAction::Swipe { start_y, end_y, .. } => assert!(start_y < end_y),
        _ => panic!("Expected swipe"),
    }
}

#[test]
fn test_element_coords_scale() {
    let coords = ScreenCoordinates::new(1920, 1080);
    assert_eq!(coords.get_element_coords(ScreenElement::AttackButton), (1700, 500));
    assert_eq!(coords.get_element_coords(ScreenElement::DialogNext), (1800, 1000));
}

#[test]
fn test_hp_bar_color_detection() {
    assert!(is_hp_bar_color(0, 200, 0));
    assert!(is_hp_bar_color(200, 200, 50));
    assert!(is_hp_bar_color(200, 50, 50));
    assert!(!is_hp_bar_color(50, 50, 200));
}

#[test]
fn test_color_predicates() {
    assert!(is_reddish(&(200, 100, 100)));
    assert!(!is_reddish(&(100, 100, 100)));
    assert!(is_colorful(&(200, 100, 50)));
    assert!(!is_colorful(&(120, 110, 100)));
}

#[test]
fn test_color_to_class() {
    assert_eq!(color_to_class(255, 100, 100), EnemyClass::Archer);
    assert_eq!(color_to_class(100, 100, 255), EnemyClass::Lancer);
    assert_eq!(color_to_class(50, 50, 100), EnemyClass::Assassin);
    assert_eq!(color_to_class(128, 128, 128), EnemyClass::Unknown);
}
