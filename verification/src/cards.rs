//! Command cards and three-card chain detection.
//!
//! A play is three cards; a chain forms when the three non-NP card types are
//! homogeneous, and a brave chain forms when all three cards share one owner.

use vstd::prelude::*;

verus! {

/// The type of a command card.
#[derive(Debug, Clone, Copy, PartialEq, Eq, Structural, Hash)]
pub enum CardType {
    /// Red card - high damage, low NP gain.
    Buster,
    /// Blue card - medium damage, high NP gain.
    Arts,
    /// Green card - low damage, generates stars.
    Quick,
    /// Noble Phantasm - special attack.
    NP,
    /// Unknown/unrecognized card.
    Unknown,
}

/// First card bonus effects, in thousandths.
#[derive(Debug, Clone, Copy, PartialEq, Eq, Structural)]
pub struct FirstCardBonus {
    pub damage_bonus: u32,
    pub np_bonus: u32,
    pub star_bonus: u32,
}

impl CardType {
    /// The bonus granted when a card of this type leads the play.
    pub fn first_card_bonus(&self) -> (b: FirstCardBonus)
        ensures
            b == spec_first_card_bonus(*self),
    {
        match self {
            CardType::Buster => FirstCardBonus { damage_bonus: 500, np_bonus: 0, star_bonus: 0 },
            CardType::Arts => FirstCardBonus { damage_bonus: 0, np_bonus: 1000, star_bonus: 0 },
            CardType::Quick => FirstCardBonus { damage_bonus: 0, np_bonus: 0, star_bonus: 200 },
            _ => FirstCardBonus { damage_bonus: 0, np_bonus: 0, star_bonus: 0 },
        }
    }

    /// Card types carry no class effectiveness of their own; that belongs to
    /// the owning unit's class. Always a neutral multiplier.
    pub fn effectiveness(&self, _enemy_class: &crate::enemy::EnemyClass) -> (m: u32)
        ensures
            m == 1000u32,
    {
        1000
    }
}

pub open spec fn spec_first_card_bonus(t: CardType) -> FirstCardBonus {
    match t {
        CardType::Buster => FirstCardBonus { damage_bonus: 500, np_bonus: 0, star_bonus: 0 },
        CardType::Arts => FirstCardBonus { damage_bonus: 0, np_bonus: 1000, star_bonus: 0 },
        CardType::Quick => FirstCardBonus { damage_bonus: 0, np_bonus: 0, star_bonus: 200 },
        _ => FirstCardBonus { damage_bonus: 0, np_bonus: 0, star_bonus: 0 },
    }
}

/// A command card in battle.
#[derive(Debug, Clone, Copy, PartialEq, Eq, Structural)]
pub struct Card {
    /// The type of card.
    pub card_type: CardType,
    /// Index of the servant this card belongs to (0-2, or 3-5 for backline).
    pub servant_idx: usize,
    /// Position in the card selection row (0-4).
    pub position: usize,
    /// Recognition confidence in thousandths (0-1000).
    pub confidence: u32,
}

impl Card {
    /// Create a new card with full recognition confidence.
    pub fn new(card_type: CardType, servant_idx: usize, position: usize) -> (c: Card)
        ensures
            c == (Card { card_type, servant_idx, position, confidence: 1000u32 }),
    {
        Card { card_type, servant_idx, position, confidence: 1000 }
    }

    /// Check if this card is an NP.
    pub fn is_np(&self) -> (r: bool)
        ensures
            r == (self.card_type is NP),
    {
        matches!(self.card_type, CardType::NP)
    }
}

/// Type of card chain.
#[derive(Debug, Clone, Copy, PartialEq, Eq, Structural)]
pub enum ChainType {
    /// Three Buster cards - extra damage.
    Buster,
    /// Three Arts cards - extra NP gain.
    Arts,
    /// Three Quick cards - extra stars.
    Quick,
    /// Three cards from the same servant - extra attack.
    Brave,
    /// No chain.
    NoChain,
}

/// The chain type formed by three cards: a colour chain needs all three cards
/// to be non-NP and of one colour.
pub open spec fn spec_chain_type(cards: [Card; 3]) -> ChainType {
    if !(cards[0].card_type is NP) && !(cards[1].card_type is NP) && !(cards[2].card_type is NP)
        && cards[0].card_type == cards[1].card_type && cards[1].card_type == cards[2].card_type {
        match cards[0].card_type {
            CardType::Buster => ChainType::Buster,
            CardType::Arts => ChainType::Arts,
            CardType::Quick => ChainType::Quick,
            _ => ChainType::NoChain,
        }
    } else {
        ChainType::NoChain
    }
}

/// Whether all three cards belong to the same servant.
pub open spec fn spec_is_brave(cards: [Card; 3]) -> bool {
    cards[0].servant_idx == cards[1].servant_idx && cards[1].servant_idx == cards[2].servant_idx
}

/// A chain of three cards.
#[derive(Debug, Clone, Copy)]
pub struct Chain {
    /// The cards in the chain (always 3).
    pub cards: [Card; 3],
    /// The type of chain formed.
    pub chain_type: ChainType,
    /// Whether this is also a brave chain.
    pub is_brave: bool,
}

impl Chain {
    /// Create a new chain from three cards, deriving its chain type and
    /// brave flag.
    pub fn new(cards: [Card; 3]) -> (c: Chain)
        ensures
            c.cards == cards,
            c.chain_type == spec_chain_type(cards),
            c.is_brave == spec_is_brave(cards),
    {
        let chain_type = Self::detect_chain_type(&cards);
        let is_brave = Self::detect_brave_chain(&cards);
        Chain { cards, chain_type, is_brave }
    }

    /// Detect what type of chain these cards form.
    fn detect_chain_type(cards: &[Card; 3]) -> (t: ChainType)
        ensures
            t == spec_chain_type(*cards),
    {
        let t0 = cards[0].card_type;
        let t1 = cards[1].card_type;
        let t2 = cards[2].card_type;
        let no_np = !matches!(t0, CardType::NP) && !matches!(t1, CardType::NP)
            && !matches!(t2, CardType::NP);
        if no_np && t0 == t1 && t1 == t2 {
            match t0 {
                CardType::Buster => ChainType::Buster,
                CardType::Arts => ChainType::Arts,
                CardType::Quick => ChainType::Quick,
                _ => ChainType::NoChain,
            }
        } else {
            ChainType::NoChain
        }
    }

    /// Detect if this is a brave chain (all cards from same servant).
    fn detect_brave_chain(cards: &[Card; 3]) -> (b: bool)
        ensures
            b == spec_is_brave(*cards),
    {
        cards[0].servant_idx == cards[1].servant_idx
            && cards[1].servant_idx == cards[2].servant_idx
    }

    /// Estimated damage bonus from this chain, in thousandths.
    pub fn damage_bonus(&self) -> (b: u32)
        ensures
            b == (if self.chain_type is Buster { 1200u32 } else { 1000u32 }),
    {
        match self.chain_type {
            ChainType::Buster => 1200,
            _ => 1000,
        }
    }

    /// Estimated NP gain bonus from this chain, in thousandths.
    pub fn np_gain_bonus(&self) -> (b: u32)
        ensures
            b == (if self.chain_type is Arts { 1200u32 } else { 1000u32 }),
    {
        match self.chain_type {
            ChainType::Arts => 1200,
            _ => 1000,
        }
    }

    /// Estimated star generation bonus from this chain, in thousandths.
    pub fn star_bonus(&self) -> (b: u32)
        ensures
            b == (if self.chain_type is Quick { 1200u32 } else { 1000u32 }),
    {
        match self.chain_type {
            ChainType::Quick => 1200,
            _ => 1000,
        }
    }
}

/// Homogeneity law: three cards of one non-NP colour always form the matching
/// colour chain, and the brave flag holds exactly when they share one owner.
pub proof fn lemma_homogeneous_chain_type(cards: [Card; 3])
    requires
        cards[0].card_type == cards[1].card_type,
        cards[1].card_type == cards[2].card_type,
        cards[0].card_type is Buster || cards[0].card_type is Arts || cards[0].card_type is Quick,
    ensures
        cards[0].card_type is Buster ==> spec_chain_type(cards) is Buster,
        cards[0].card_type is Arts ==> spec_chain_type(cards) is Arts,
        cards[0].card_type is Quick ==> spec_chain_type(cards) is Quick,
        spec_is_brave(cards) <==> (cards[0].servant_idx == cards[1].servant_idx
            && cards[1].servant_idx == cards[2].servant_idx),
{
}

/// Mixed-type law: three cards of three distinct types never form a colour
/// chain, and from a single owner they still form a brave chain.
pub proof fn lemma_distinct_types_no_chain(cards: [Card; 3])
    requires
        cards[0].card_type != cards[1].card_type || cards[1].card_type != cards[2].card_type,
    ensures
        spec_chain_type(cards) is NoChain,
        cards[0].servant_idx == cards[1].servant_idx && cards[1].servant_idx
            == cards[2].servant_idx ==> spec_is_brave(cards),
{
}

/// The sequence of all ordered selections of 3 distinct cards out of `cards`,
/// in the order a nested index walk visits them: flattened index `t` encodes
/// `(i, j, k) = (t / n², (t / n) % n, t % n)`, and `t` is kept only when the
/// three indices are pairwise distinct.
pub open spec fn spec_chains_upto(cards: Seq<Card>, t: int) -> Seq<Chain>
    decreases t,
{
    if t <= 0 {
        Seq::empty()
    } else {
        let n = cards.len() as int;
        let u = t - 1;
        let i = u / (n * n);
        let j = (u / n) % n;
        let k = u % n;
        let prefix = spec_chains_upto(cards, u);
        if i != j && j != k && i != k {
            prefix.push(spec_make_chain(cards[i], cards[j], cards[k]))
        } else {
            prefix
        }
    }
}

/// The chain built from three given cards.
pub open spec fn spec_make_chain(c0: Card, c1: Card, c2: Card) -> Chain {
    let cards = [c0, c1, c2];
    Chain { cards, chain_type: spec_chain_type(cards), is_brave: spec_is_brave(cards) }
}

/// All ordered selections of three distinct cards.
pub open spec fn spec_all_chains(cards: Seq<Card>) -> Seq<Chain> {
    if cards.len() < 3 {
        Seq::empty()
    } else {
        spec_chains_upto(cards, (cards.len() * cards.len() * cards.len()) as int)
    }
}

/// Calculate all possible ordered 3-card selections from the available cards.
///
/// The card row holds at most 5 cards by the game's rules, so the walk visits
/// at most 125 index triples; this is intentionally a small exhaustive
/// enumeration, not a general combinatorial search.
pub fn calculate_possible_chains(cards: &[Card]) -> (chains: Vec<Chain>)
    requires
        cards@.len() <= 8,
    ensures
        chains@ == spec_all_chains(cards@),
{
    let mut chains: Vec<Chain> = Vec::new();
    let n = cards.len();
    if n < 3 {
        assert(spec_all_chains(cards@) =~= Seq::<Chain>::empty());
        return chains;
    }
    proof {
        assert(n * n <= 64 && n * n * n <= 512) by (nonlinear_arith)
            requires n <= 8;
    }
    let nn = n * n;
    let total = nn * n;
    let mut t: usize = 0;
    while t < total
        invariant
            n == cards@.len(),
            3 <= n <= 8,
            nn == n * n,
            total == n * n * n,
            t <= total,
            chains@ == spec_chains_upto(cards@, t as int),
        decreases total - t,
    {
        let i = t / nn;
        let j = (t / n) % n;
        let k = t % n;
        proof {
            let ni = n as int;
            let ti = t as int;
            assert(ti / (ni * ni) < ni) by (nonlinear_arith)
                requires 0 <= ti < ni * ni * ni, ni >= 3;
            assert((ti / ni) % ni < ni && ti % ni < ni) by (nonlinear_arith)
                requires ni >= 3, ti >= 0;
            assert(0 <= ti / (ni * ni) && 0 <= (ti / ni) % ni && 0 <= ti % ni)
                by (nonlinear_arith)
                requires ni >= 3, ti >= 0;
        }
        if i != j && j != k && i != k {
            let chain = Chain::new([cards[i], cards[j], cards[k]]);
            chains.push(chain);
        }
        t = t + 1;
    }
    chains
}

} // verus!
