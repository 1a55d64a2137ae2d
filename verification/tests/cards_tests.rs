use fgo_sheba::cards::{calculate_possible_chains, Card, CardType, Chain, ChainType};

#[test]
fn test_buster_chain_detection() {
    let cards = [
        Card::new(CardType::Buster, 0, 0),
        Card::new(CardType::Buster, 1, 1),
        Card::new(CardType::Buster, 2, 2),
    ];
    let chain = Chain::new(cards);
    assert_eq!(chain.chain_type, ChainType::Buster);
    assert!(!chain.is_brave);
}

#[test]
fn cards_test_brave_chain_detection() {
    let cards = [
        Card::new(CardType::Buster, 0, 0),
        Card::new(CardType::Arts, 0, 1),
        Card::new(CardType::Quick, 0, 2),
    ];
    let chain = Chain::new(cards);
    assert_eq!(chain.chain_type, ChainType::NoChain);
    assert!(chain.is_brave);
}

#[test]
fn test_arts_brave_chain() {
    let cards = [
        Card::new(CardType::Arts, 0, 0),
        Card::new(CardType::Arts, 0, 1),
        Card::new(CardType::Arts, 0, 2),
    ];
    let chain = Chain::new(cards);
    assert_eq!(chain.chain_type, ChainType::Arts);
    assert!(chain.is_brave);
}

#[test]
fn test_quick_chain_mixed_owners() {
    let cards = [
        Card::new(CardType::Quick, 0, 0),
        Card::new(CardType::Quick, 1, 1),
        Card::new(CardType::Quick, 2, 2),
    ];
    let chain = Chain::new(cards);
    assert_eq!(chain.chain_type, ChainType::Quick);
    assert!(!chain.is_brave);
}

#[test]
fn test_np_card_blocks_colour_chain() {
    let cards = [
        Card::new(CardType::NP, 0, 5),
        Card::new(CardType::Buster, 1, 1),
        Card::new(CardType::Buster, 2, 2),
    ];
    let chain = Chain::new(cards);
    assert_eq!(chain.chain_type, ChainType::NoChain);
}

#[test]
fn test_chain_enumeration_counts() {
    let mk = |p: usize| Card::new(CardType::Buster, p % 3, p);
    let five = [mk(0), mk(1), mk(2), mk(3), mk(4)];
    assert_eq!(calculate_possible_chains(&five).len(), 60);
    let three = [mk(0), mk(1), mk(2)];
    assert_eq!(calculate_possible_chains(&three).len(), 6);
    let two = [mk(0), mk(1)];
    assert_eq!(calculate_possible_chains(&two).len(), 0);
}

#[test]
fn test_chain_bonuses() {
    let buster = Chain::new([
        Card::new(CardType::Buster, 0, 0),
        Card::new(CardType::Buster, 1, 1),
        Card::new(CardType::Buster, 2, 2),
    ]);
    assert_eq!(buster.damage_bonus(), 1200);
    assert_eq!(buster.np_gain_bonus(), 1000);
    assert_eq!(buster.star_bonus(), 1000);

    let arts = Chain::new([
        Card::new(CardType::Arts, 0, 0),
        Card::new(CardType::Arts, 1, 1),
        Card::new(CardType::Arts, 2, 2),
    ]);
    assert_eq!(arts.np_gain_bonus(), 1200);

    let quick = Chain::new([
        Card::new(CardType::Quick, 0, 0),
        Card::new(CardType::Quick, 1, 1),
        Card::new(CardType::Quick, 2, 2),
    ]);
    assert_eq!(quick.star_bonus(), 1200);
}

#[test]
fn test_first_card_bonus_values() {
    let b = CardType::Buster.first_card_bonus();
    assert_eq!(b.damage_bonus, 500);
    assert_eq!(b.np_bonus, 0);
    let a = CardType::Arts.first_card_bonus();
    assert_eq!(a.np_bonus, 1000);
    let q = CardType::Quick.first_card_bonus();
    assert_eq!(q.star_bonus, 200);
    let n = CardType::NP.first_card_bonus();
    assert_eq!(n.damage_bonus, 0);
}
