use fgo_sheba::codec::{decode_action, encode_action};
use fgo_sheba::ShebaAction;

fn round_trip(action: ShebaAction) {
    let word = encode_action(&action);
    let decoded = decode_action(word).expect("valid code");
    assert_eq!(decoded, action);
}

#[test]
fn test_action_code_round_trip() {
    round_trip(ShebaAction::NoOp);
    round_trip(ShebaAction::Tap { x: 960, y: 540 });
    round_trip(ShebaAction::Swipe {
        start_x: 960,
        start_y: 800,
        end_x: 960,
        end_y: 400,
        duration_ms: 500,
    });
    round_trip(ShebaAction::Wait { duration_ms: 3000 });
    round_trip(ShebaAction::SelectCards { card_indices: vec![] });
    round_trip(ShebaAction::SelectCards { card_indices: vec![4] });
    round_trip(ShebaAction::SelectCards { card_indices: vec![5, 0, 2] });
    round_trip(ShebaAction::UseSkill { servant_idx: 1, skill_idx: 2, target: Some(0) });
    round_trip(ShebaAction::UseSkill { servant_idx: 2, skill_idx: 0, target: None });
    round_trip(ShebaAction::UseNP { servant_idx: 2 });
    round_trip(ShebaAction::TargetEnemy { enemy_idx: 1 });
    round_trip(ShebaAction::TapAttack);
    round_trip(ShebaAction::UseMasterSkill { skill_idx: 1, target: Some(2) });
    round_trip(ShebaAction::UseMasterSkill { skill_idx: 0, target: None });
}

#[test]
fn test_zero_slot_differs_from_empty_selection() {
    let empty = encode_action(&ShebaAction::SelectCards { card_indices: vec![] });
    let zero = encode_action(&ShebaAction::SelectCards { card_indices: vec![0] });
    assert_ne!(empty, zero);
    assert_eq!(
        decode_action(zero).unwrap(),
        ShebaAction::SelectCards { card_indices: vec![0] }
    );
}

#[test]
fn test_unknown_tag_rejected() {
    assert_eq!(decode_action(10), None);
    assert_eq!(decode_action(0xFF), None);
}

#[test]
fn test_oversized_card_count_rejected() {
    // Tag 4 with a count field of 4 names more slots than a play holds.
    let bogus: u128 = 4u128 | (4u128 << 80);
    assert_eq!(decode_action(bogus), None);
}
