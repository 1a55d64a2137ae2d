//! Card selection: choose the 3-card play for this turn.
//!
//! Every ordered selection of three distinct cards is scored as a chain;
//! the first strictly best candidate wins, so later ties never replace the
//! incumbent. With fewer than three cards, each card is scored on its own
//! and the best are played in descending order.

use vstd::prelude::*;
use crate::cards::{Card, CardType, Chain, ChainType, calculate_possible_chains,
    spec_all_chains};
use crate::enemy::{Enemy, EnemyWave, spec_alive_enemies};
use crate::servant::{Servant, spec_advantage};
use crate::settings::{Settings, spec_priority_score};
use crate::rank::{Scored, mul_milli, spec_sort_desc, sort_pairs_desc};

verus! {

/// Card selection engine, weights in thousandths.
#[derive(Debug, Clone, Copy, PartialEq, Eq, Structural)]
pub struct CardSelector {
    /// Weight for chain bonus.
    pub chain_weight: u32,
    /// Weight for brave chain bonus.
    pub brave_chain_weight: u32,
    /// Weight for class advantage.
    pub class_advantage_weight: u32,
    /// Weight for first card bonus.
    pub first_card_weight: u32,
}

impl CardSelector {
    /// The bounds the scoring arithmetic relies on: every weight is a
    /// bonus multiplier of at most four.
    pub open spec fn wf(&self) -> bool {
        &&& self.chain_weight <= 3000
        &&& self.brave_chain_weight <= 4000
        &&& self.class_advantage_weight <= 4000
        &&& self.first_card_weight <= 4000
    }

    /// Create a new card selector with the default weights.
    pub fn new() -> (c: CardSelector)
        ensures
            c == (CardSelector {
                chain_weight: 1500u32,
                brave_chain_weight: 1300u32,
                class_advantage_weight: 1200u32,
                first_card_weight: 1100u32,
            }),
            c.wf(),
    {
        CardSelector {
            chain_weight: 1500,
            brave_chain_weight: 1300,
            class_advantage_weight: 1200,
            first_card_weight: 1100,
        }
    }
}

/// Powers of four, for the score-growth argument.
pub open spec fn pow4(n: nat) -> int
    decreases n,
{
    if n == 0 {
        1
    } else {
        4 * pow4((n - 1) as nat)
    }
}

proof fn lemma_pow4_value()
    ensures
        pow4(12nat) == 16777216,
{
    reveal_with_fuel(pow4, 13);
}

/// Any growth count that occurs in chain scoring stays under twelve
/// multiplications, so the score stays under the fixed-point range.
proof fn lemma_pow4_bound(n: nat)
    requires
        n <= 12,
    ensures
        0 < pow4(n) <= 16777216,
{
    lemma_pow4_mono(n, 12nat);
    lemma_pow4_value();
}

proof fn lemma_pow4_mono(a: nat, b: nat)
    requires
        a <= b,
    ensures
        0 < pow4(a) <= pow4(b),
    decreases b,
{
    if b > 0 {
        if a == b {
            lemma_pow4_mono((a - 1) as nat, (b - 1) as nat);
        } else {
            lemma_pow4_mono(a, (b - 1) as nat);
        }
    }
}

/// One card's class-advantage bonus, applied once per alive enemy the
/// card's owner is advantaged against.
pub open spec fn spec_apply_card_adv(
    s: int,
    servant: Servant,
    alive: Seq<Enemy>,
    caw: u32,
) -> int
    decreases alive.len(),
{
    if alive.len() == 0 {
        s
    } else {
        let prev = spec_apply_card_adv(s, servant, alive.drop_last(), caw);
        if spec_advantage(servant.class, alive.last().class) > 1000 {
            prev * caw / 1000
        } else {
            prev
        }
    }
}

/// The chain's class-advantage bonus, applied card by card.
pub open spec fn spec_apply_chain_adv(
    s: int,
    cards: Seq<Card>,
    servants: Seq<Servant>,
    alive: Seq<Enemy>,
    caw: u32,
) -> int
    decreases cards.len(),
{
    if cards.len() == 0 {
        s
    } else {
        let prev = spec_apply_chain_adv(s, cards.drop_last(), servants, alive, caw);
        let c = cards.last();
        if c.servant_idx < servants.len() {
            spec_apply_card_adv(prev, servants[c.servant_idx as int], alive, caw)
        } else {
            prev
        }
    }
}

/// The bonus for cards whose owner already uses its NP this turn.
pub open spec fn spec_apply_np_bonus(s: int, cards: Seq<Card>, np: Seq<usize>) -> int
    decreases cards.len(),
{
    if cards.len() == 0 {
        s
    } else {
        let prev = spec_apply_np_bonus(s, cards.drop_last(), np);
        if np.contains(cards.last().servant_idx) {
            prev * 1100 / 1000
        } else {
            prev
        }
    }
}

/// The score of a 3-card chain, in thousandths: the summed card-priority
/// ranks, multiplied by the chain-type factor, the brave bonus, the
/// first-card bonus, the per-pair class-advantage bonus and the NP-user
/// bonus.
pub open spec fn spec_chain_score(
    cs: CardSelector,
    chain: Chain,
    servants: Seq<Servant>,
    enemies: Seq<Enemy>,
    np: Seq<usize>,
    set: Settings,
) -> int {
    let base = (spec_priority_score(set.card_priority, chain.cards[0].card_type)
        + spec_priority_score(set.card_priority, chain.cards[1].card_type)
        + spec_priority_score(set.card_priority, chain.cards[2].card_type)) * 1000;
    let s1 = match chain.chain_type {
        ChainType::Buster => base * (cs.chain_weight * 1200 / 1000) / 1000,
        ChainType::Arts => base * (cs.chain_weight * 1100 / 1000) / 1000,
        ChainType::Quick => base * (cs.chain_weight * 1000 / 1000) / 1000,
        ChainType::Brave => base * cs.brave_chain_weight / 1000,
        ChainType::NoChain => base,
    };
    let s2 = if chain.is_brave { s1 * cs.brave_chain_weight / 1000 } else { s1 };
    let first_bonus = (chain.cards[0].card_type is Buster
        && set.card_priority.first_choice is Buster) || (chain.cards[0].card_type is Arts
        && set.card_priority.first_choice is Arts);
    let s3 = if first_bonus { s2 * cs.first_card_weight / 1000 } else { s2 };
    let cards_seq = seq![chain.cards[0], chain.cards[1], chain.cards[2]];
    let s4 = if set.prioritize_class_advantage {
        spec_apply_chain_adv(s3, cards_seq, servants, spec_alive_enemies(enemies),
            cs.class_advantage_weight)
    } else {
        s3
    };
    spec_apply_np_bonus(s4, cards_seq, np)
}

/// One card's individual score, in thousandths: the priority rank, scaled
/// by each applicable class advantage and by the owner's buff bonus.
pub open spec fn spec_card_score(
    card: Card,
    servants: Seq<Servant>,
    enemies: Seq<Enemy>,
    set: Settings,
) -> int {
    let base = spec_priority_score(set.card_priority, card.card_type) * 1000;
    let s1 = if set.prioritize_class_advantage && card.servant_idx < servants.len() {
        spec_apply_ind_adv(base, servants[card.servant_idx as int],
            spec_alive_enemies(enemies))
    } else {
        base
    };
    if card.servant_idx < servants.len() && servants[card.servant_idx as int].buff_count > 0 {
        s1 * 1200 / 1000
    } else {
        s1
    }
}

/// The individual-card class-advantage scaling: the advantage value itself
/// is the factor.
pub open spec fn spec_apply_ind_adv(s: int, servant: Servant, alive: Seq<Enemy>) -> int
    decreases alive.len(),
{
    if alive.len() == 0 {
        s
    } else {
        let prev = spec_apply_ind_adv(s, servant, alive.drop_last());
        let adv = spec_advantage(servant.class, alive.last().class);
        if adv > 1000 {
            prev * adv / 1000
        } else {
            prev
        }
    }
}

/// The fallback play when no chain can be formed: cards ranked by their
/// individual scores, highest first (ties keep row order), capped at 3.
pub open spec fn spec_fallback_cards(
    available: Seq<Card>,
    servants: Seq<Servant>,
    enemies: Seq<Enemy>,
    set: Settings,
) -> Seq<Card> {
    let pairs = Seq::new(available.len(), |i: int| (spec_card_score(available[i], servants,
        enemies, set) as u64, i as usize));
    let sorted = spec_sort_desc(pairs);
    let kept = if sorted.len() <= 3 { sorted } else { sorted.take(3) };
    kept.map_values(|p: Scored| available[p.1 as int])
}

/// The index of the winning chain among the first `n` candidates: the
/// first candidate no later one beats strictly.
pub open spec fn spec_best_chain_upto(
    cs: CardSelector,
    chains: Seq<Chain>,
    servants: Seq<Servant>,
    enemies: Seq<Enemy>,
    np: Seq<usize>,
    set: Settings,
    n: int,
) -> int
    decreases n,
{
    if n <= 1 {
        0
    } else {
        let m = spec_best_chain_upto(cs, chains, servants, enemies, np, set, n - 1);
        if spec_chain_score(cs, chains[n - 1], servants, enemies, np, set)
            > spec_chain_score(cs, chains[m], servants, enemies, np, set) {
            n - 1
        } else {
            m
        }
    }
}

/// The selected play: empty without cards; the fallback ranking when no
/// chain can be formed; otherwise the cards of the winning chain, first
/// strictly best candidate first.
pub open spec fn spec_select_cards(
    cs: CardSelector,
    available: Seq<Card>,
    servants: Seq<Servant>,
    enemies: Seq<Enemy>,
    np: Seq<usize>,
    set: Settings,
) -> Seq<Card> {
    if available.len() == 0 {
        Seq::empty()
    } else if spec_all_chains(available).len() == 0 {
        spec_fallback_cards(available, servants, enemies, set)
    } else {
        let chains = spec_all_chains(available);
        let b = spec_best_chain_upto(cs, chains, servants, enemies, np, set,
            chains.len() as int);
        let c = chains[b];
        seq![c.cards[0], c.cards[1], c.cards[2]]
    }
}

/// The winning chain scores at least as high as every candidate, and
/// strictly higher than every earlier one.
pub proof fn lemma_best_chain_is_first_max(
    cs: CardSelector,
    chains: Seq<Chain>,
    servants: Seq<Servant>,
    enemies: Seq<Enemy>,
    np: Seq<usize>,
    set: Settings,
    n: int,
)
    requires
        1 <= n <= chains.len(),
    ensures
        0 <= spec_best_chain_upto(cs, chains, servants, enemies, np, set, n) < n,
        forall|j: int| 0 <= j < n ==> spec_chain_score(cs, #[trigger] chains[j], servants,
            enemies, np, set) <= spec_chain_score(cs, chains[spec_best_chain_upto(cs, chains,
            servants, enemies, np, set, n)], servants, enemies, np, set),
        forall|j: int| 0 <= j < spec_best_chain_upto(cs, chains, servants, enemies, np, set, n)
            ==> spec_chain_score(cs, #[trigger] chains[j], servants, enemies, np, set)
                < spec_chain_score(cs, chains[spec_best_chain_upto(cs, chains, servants,
                enemies, np, set, n)], servants, enemies, np, set),
    decreases n,
{
    if n > 1 {
        lemma_best_chain_is_first_max(cs, chains, servants, enemies, np, set, n - 1);
    }
}

fn contains_usize(s: &[usize], v: usize) -> (r: bool)
    ensures
        r == s@.contains(v),
{
    let mut i: usize = 0;
    while i < s.len()
        invariant
            i <= s@.len(),
            forall|j: int| 0 <= j < i ==> s@[j] != v,
        decreases s@.len() - i,
    {
        if s[i] == v {
            return true;
        }
        i = i + 1;
    }
    false
}

impl CardSelector {
    /// Score a card chain, in thousandths.
    fn score_chain(
        &self,
        chain: &Chain,
        servants: &[Servant],
        enemies: &EnemyWave,
        np_decisions: &[usize],
        settings: &Settings,
    ) -> (s: u64)
        requires
            self.wf(),
            enemies.enemies@.len() <= 3,
        ensures
            s == spec_chain_score(*self, *chain, servants@, enemies.enemies@, np_decisions@,
                *settings),
            s <= 0x2000_0000_0000,
    {
        let p0 = settings.card_priority.score(chain.cards[0].card_type) as u64;
        let p1 = settings.card_priority.score(chain.cards[1].card_type) as u64;
        let p2 = settings.card_priority.score(chain.cards[2].card_type) as u64;
        let base = (p0 + p1 + p2) * 1000;
        let s1 = match chain.chain_type {
            ChainType::Buster => mul_milli(base, (self.chain_weight as u64) * 1200 / 1000),
            ChainType::Arts => mul_milli(base, (self.chain_weight as u64) * 1100 / 1000),
            ChainType::Quick => mul_milli(base, (self.chain_weight as u64) * 1000 / 1000),
            ChainType::Brave => mul_milli(base, self.brave_chain_weight as u64),
            ChainType::NoChain => base,
        };
        let s2 = if chain.is_brave {
            mul_milli(s1, self.brave_chain_weight as u64)
        } else {
            s1
        };
        let first_bonus = match chain.cards[0].card_type {
            CardType::Buster => matches!(settings.card_priority.first_choice, CardType::Buster),
            CardType::Arts => matches!(settings.card_priority.first_choice, CardType::Arts),
            _ => false,
        };
        let s3 = if first_bonus {
            mul_milli(s2, self.first_card_weight as u64)
        } else {
            s2
        };
        assert(s3 <= 9000 * 64);
        let ghost cards_seq = seq![chain.cards@[0], chain.cards@[1], chain.cards@[2]];
        let alive = enemies.alive_enemies();
        proof {
            enemies.enemies@.lemma_filter_len(|e: Enemy| e.is_alive);
        }
        let s4 = if settings.prioritize_class_advantage {
            let mut s = s3;
            let mut ci: usize = 0;
            while ci < 3
                invariant
                    self.wf(),
                    ci <= 3,
                    alive@.len() <= 3,
                    alive@ == spec_alive_enemies(enemies.enemies@),
                    cards_seq == seq![chain.cards@[0], chain.cards@[1], chain.cards@[2]],
                    s == spec_apply_chain_adv(s3 as int, cards_seq.take(ci as int), servants@,
                        alive@, self.class_advantage_weight),
                    s3 <= 9000 * 64,
                    s <= 576000 * pow4((3 * ci) as nat),
                decreases 3 - ci,
            {
                proof {
                    assert(cards_seq.take(ci + 1).drop_last() =~= cards_seq.take(ci as int));
                    assert(cards_seq.take(ci + 1).last() == chain.cards@[ci as int]);
                }
                let card = chain.cards[ci];
                if card.servant_idx < servants.len() {
                    let servant = &servants[card.servant_idx];
                    let mut ei: usize = 0;
                    let ghost s_in = s;
                    while ei < alive.len()
                        invariant
                            self.wf(),
                            ci < 3,
                            ei <= alive@.len(),
                            alive@.len() <= 3,
                            servant == &servants@[card.servant_idx as int],
                            card.servant_idx < servants@.len(),
                            s == spec_apply_card_adv(s_in as int, servants@[
                                card.servant_idx as int], alive@.take(ei as int),
                                self.class_advantage_weight),
                            s_in <= 576000 * pow4((3 * ci) as nat),
                            s <= 576000 * pow4((3 * ci + ei) as nat),
                        decreases alive@.len() - ei,
                    {
                        proof {
                            assert(alive@.take(ei + 1).drop_last() =~= alive@.take(ei as int));
                            assert(alive@.take(ei + 1).last() == alive@[ei as int]);
                            lemma_pow4_bound((3 * ci + ei) as nat);
                        }
                        let advantage = servant.damage_multiplier(&alive[ei].class);
                        if advantage > 1000 {
                            s = mul_milli(s, self.class_advantage_weight as u64);
                        }
                        proof {
                            lemma_pow4_mono((3 * ci + ei) as nat, (3 * ci + ei + 1) as nat);
                        }
                        ei = ei + 1;
                    }
                    proof {
                        assert(alive@.take(alive@.len() as int) =~= alive@);
                        lemma_pow4_mono((3 * ci + alive@.len()) as nat, (3 * ci + 3) as nat);
                    }
                } else {
                    proof {
                        lemma_pow4_mono((3 * ci) as nat, (3 * ci + 3) as nat);
                    }
                }
                ci = ci + 1;
            }
            proof {
                assert(cards_seq.take(3) =~= cards_seq);
            }
            s
        } else {
            s3
        };
        proof {
            lemma_pow4_bound(9nat);
        }
        assert(s4 <= 576000 * pow4(9nat));
        let mut s = s4;
        let mut ni: usize = 0;
        while ni < 3
            invariant
                ni <= 3,
                cards_seq == seq![chain.cards@[0], chain.cards@[1], chain.cards@[2]],
                s == spec_apply_np_bonus(s4 as int, cards_seq.take(ni as int), np_decisions@),
                s4 <= 576000 * pow4(9nat),
                s <= 576000 * pow4((9 + ni) as nat),
            decreases 3 - ni,
        {
            proof {
                assert(cards_seq.take(ni + 1).drop_last() =~= cards_seq.take(ni as int));
                assert(cards_seq.take(ni + 1).last() == chain.cards@[ni as int]);
                lemma_pow4_bound((9 + ni) as nat);
            }
            let card = chain.cards[ni];
            if contains_usize(np_decisions, card.servant_idx) {
                s = mul_milli(s, 1100);
            }
            proof {
                lemma_pow4_mono((9 + ni) as nat, (9 + ni + 1) as nat);
            }
            ni = ni + 1;
        }
        proof {
            assert(cards_seq.take(3) =~= cards_seq);
            lemma_pow4_bound(12nat);
        }
        s
    }

    /// Score an individual card, in thousandths.
    fn score_individual_card(
        &self,
        card: &Card,
        servants: &[Servant],
        enemies: &EnemyWave,
        settings: &Settings,
    ) -> (s: u64)
        requires
            enemies.enemies@.len() <= 3,
        ensures
            s == spec_card_score(*card, servants@, enemies.enemies@, *settings),
            s <= 0x2000_0000_0000,
    {
        let base = (settings.card_priority.score(card.card_type) as u64) * 1000;
        let alive = enemies.alive_enemies();
        proof {
            enemies.enemies@.lemma_filter_len(|e: Enemy| e.is_alive);
        }
        let s1 = if settings.prioritize_class_advantage && card.servant_idx < servants.len() {
            let servant = &servants[card.servant_idx];
            let mut s = base;
            let mut ei: usize = 0;
            while ei < alive.len()
                invariant
                    ei <= alive@.len(),
                    alive@.len() <= 3,
                    servant == &servants@[card.servant_idx as int],
                    card.servant_idx < servants@.len(),
                    alive@ == spec_alive_enemies(enemies.enemies@),
                    s == spec_apply_ind_adv(base as int, servants@[card.servant_idx as int],
                        alive@.take(ei as int)),
                    base <= 3000,
                    s <= 3000 * pow4(ei as nat),
                decreases alive@.len() - ei,
            {
                proof {
                    assert(alive@.take(ei + 1).drop_last() =~= alive@.take(ei as int));
                    assert(alive@.take(ei + 1).last() == alive@[ei as int]);
                    lemma_pow4_bound(ei as nat);
                }
                let advantage = servant.damage_multiplier(&alive[ei].class);
                if advantage > 1000 {
                    s = mul_milli(s, advantage as u64);
                }
                proof {
                    lemma_pow4_mono(ei as nat, (ei + 1) as nat);
                }
                ei = ei + 1;
            }
            proof {
                assert(alive@.take(alive@.len() as int) =~= alive@);
                lemma_pow4_mono(alive@.len() as nat, 3nat);
                lemma_pow4_bound(3nat);
            }
            s
        } else {
            base
        };
        proof {
            lemma_pow4_bound(3nat);
        }
        assert(s1 <= 3000 * pow4(3nat));
        if card.servant_idx < servants.len() && servants[card.servant_idx].buff_count > 0 {
            mul_milli(s1, 1200)
        } else {
            s1
        }
    }

    /// Select the best individual cards when chains aren't possible:
    /// highest scores first, ties keeping row order, at most three.
    fn select_best_individual_cards(
        &self,
        available_cards: &[Card],
        servants: &[Servant],
        enemies: &EnemyWave,
        settings: &Settings,
    ) -> (r: Vec<Card>)
        requires
            enemies.enemies@.len() <= 3,
        ensures
            r@ == spec_fallback_cards(available_cards@, servants@, enemies.enemies@,
                *settings),
    {
        let ghost spec_pairs = Seq::new(available_cards@.len(), |i: int| (spec_card_score(
            available_cards@[i], servants@, enemies.enemies@, *settings) as u64, i as usize));
        let mut pairs: Vec<Scored> = Vec::new();
        let mut i: usize = 0;
        while i < available_cards.len()
            invariant
                enemies.enemies@.len() <= 3,
                i <= available_cards@.len(),
                spec_pairs == Seq::new(available_cards@.len(), |k: int| (spec_card_score(
                    available_cards@[k], servants@, enemies.enemies@, *settings) as u64,
                    k as usize)),
                pairs@ == spec_pairs.take(i as int),
            decreases available_cards@.len() - i,
        {
            let s = self.score_individual_card(&available_cards[i], servants, enemies,
                settings);
            pairs.push((s, i));
            proof {
                assert(pairs@ =~= spec_pairs.take(i + 1));
            }
            i = i + 1;
        }
        proof {
            assert(spec_pairs.take(spec_pairs.len() as int) =~= spec_pairs);
        }
        let sorted = sort_pairs_desc(&pairs);
        let ghost kept = if sorted@.len() <= 3 { sorted@ } else { sorted@.take(3) };
        let mut r: Vec<Card> = Vec::new();
        let mut k: usize = 0;
        while k < sorted.len() && k < 3
            invariant
                sorted@ == spec_sort_desc(spec_pairs),
                sorted@.len() == available_cards@.len(),
                spec_pairs == Seq::new(available_cards@.len(), |m: int| (spec_card_score(
                    available_cards@[m], servants@, enemies.enemies@, *settings) as u64,
                    m as usize)),
                kept == (if sorted@.len() <= 3 { sorted@ } else { sorted@.take(3) }),
                k <= 3,
                k <= sorted@.len(),
                r@ == kept.take(k as int).map_values(|p: Scored| available_cards@[p.1 as int]),
            decreases 3 - k,
        {
            proof {
                crate::rank::lemma_sort_desc_contains(spec_pairs, k as int);
                let x = sorted@[k as int];
                let m = choose|m: int| 0 <= m < spec_pairs.len() && spec_pairs[m] == x;
                assert(spec_pairs[m].1 == m as usize);
                assert(kept.take(k + 1).drop_last() =~= kept.take(k as int));
            }
            let idx = sorted[k].1;
            r.push(available_cards[idx]);
            proof {
                assert(r@ =~= kept.take(k + 1).map_values(|p: Scored| available_cards@[
                    p.1 as int]));
            }
            k = k + 1;
        }
        proof {
            assert(kept.take(kept.len() as int) =~= kept);
            if sorted@.len() > 3 {
                assert(kept.take(3) =~= kept);
            }
        }
        r
    }

    /// Select the optimal 3-card play from the available cards: the first
    /// strictly best chain, or the fallback ranking when no chain exists.
    pub fn select_cards(
        &self,
        available_cards: &[Card],
        servants: &[Servant],
        enemies: &EnemyWave,
        np_decisions: &[usize],
        settings: &Settings,
    ) -> (r: Vec<Card>)
        requires
            self.wf(),
            available_cards@.len() <= 5,
            enemies.enemies@.len() <= 3,
        ensures
            r@ == spec_select_cards(*self, available_cards@, servants@, enemies.enemies@,
                np_decisions@, *settings),
            available_cards@.len() == 0 ==> r@.len() == 0,
            spec_all_chains(available_cards@).len() == 0 ==> r@.len() <= 3,
    {
        if available_cards.len() == 0 {
            return Vec::new();
        }
        let chains = calculate_possible_chains(available_cards);
        if chains.len() == 0 {
            let r = self.select_best_individual_cards(available_cards, servants, enemies,
                settings);
            return r;
        }
        let ghost chains_spec = spec_all_chains(available_cards@);
        let mut best: usize = 0;
        let mut best_score = self.score_chain(&chains[0], servants, enemies, np_decisions,
            settings);
        let mut i: usize = 1;
        while i < chains.len()
            invariant
                self.wf(),
                enemies.enemies@.len() <= 3,
                chains@ == chains_spec,
                chains@.len() > 0,
                1 <= i <= chains@.len(),
                best < i,
                best == spec_best_chain_upto(*self, chains_spec, servants@, enemies.enemies@,
                    np_decisions@, *settings, i as int),
                best_score == spec_chain_score(*self, chains_spec[best as int], servants@,
                    enemies.enemies@, np_decisions@, *settings),
            decreases chains@.len() - i,
        {
            let score = self.score_chain(&chains[i], servants, enemies, np_decisions,
                settings);
            if score > best_score {
                best = i;
                best_score = score;
            }
            i = i + 1;
        }
        let c = &chains[best];
        let mut r: Vec<Card> = Vec::new();
        r.push(c.cards[0]);
        r.push(c.cards[1]);
        r.push(c.cards[2]);
        proof {
            assert(r@ =~= spec_select_cards(*self, available_cards@, servants@,
                enemies.enemies@, np_decisions@, *settings));
        }
        r
    }

    /// Find the best lead card for the configured first choice: the
    /// matching card with the highest recognition confidence, the last one
    /// on ties.
    pub fn find_best_first_card(&self, available_cards: &[Card], settings: &Settings)
        -> (r: Option<Card>)
        ensures
            ({
                let matching = available_cards@.filter(|c: Card| c.card_type
                    == set_first_choice(*settings));
                &&& (r is None <==> matching.len() == 0)
                &&& (r matches Some(c) ==> matching.len() > 0
                    && c == matching[spec_last_max_conf(matching)])
            }),
    {
        let mut best: Option<Card> = None;
        let mut i: usize = 0;
        while i < available_cards.len()
            invariant
                i <= available_cards@.len(),
                ({
                    let matching = available_cards@.take(i as int).filter(|c: Card|
                        c.card_type == set_first_choice(*settings));
                    &&& (best is None <==> matching.len() == 0)
                    &&& (best matches Some(c) ==> matching.len() > 0
                        && c == matching[spec_last_max_conf(matching)])
                }),
            decreases available_cards@.len() - i,
        {
            proof {
                reveal_with_fuel(Seq::<_>::filter, 2);
                assert(available_cards@.take(i + 1).drop_last()
                    =~= available_cards@.take(i as int));
                assert(available_cards@.take(i + 1).last() == available_cards@[i as int]);
            }
            let c = available_cards[i];
            if c.card_type == settings.card_priority.first_choice {
                proof {
                    let p = |cc: Card| cc.card_type == set_first_choice(*settings);
                    let matching = available_cards@.take(i as int).filter(p);
                    let matching2 = available_cards@.take(i + 1).filter(p);
                    assert(matching2 == matching.push(available_cards@[i as int]));
                    assert(matching2.drop_last() =~= matching);
                    assert(matching2.last() == available_cards@[i as int]);
                    if matching.len() >= 1 {
                        lemma_last_max_conf_in_range(matching);
                    }
                    lemma_last_max_conf_in_range(matching2);
                }
                match &best {
                    None => {
                        best = Some(c);
                    }
                    Some(b) => {
                        if c.confidence >= b.confidence {
                            best = Some(c);
                        }
                    }
                }
            }
            i = i + 1;
        }
        proof {
            assert(available_cards@.take(available_cards@.len() as int) =~= available_cards@);
            let matching = available_cards@.filter(|c: Card| c.card_type
                == set_first_choice(*settings));
            if matching.len() >= 1 {
                lemma_last_max_conf_in_range(matching);
            }
        }
        best
    }

    /// Check if a colour chain of the given type can be formed: it takes
    /// three cards of that colour.
    pub fn can_form_chain(&self, available_cards: &[Card], chain_type: ChainType) -> (r: bool)
        ensures
            r == (match chain_type {
                ChainType::Buster => spec_count_of_type(available_cards@, CardType::Buster)
                    >= 3,
                ChainType::Arts => spec_count_of_type(available_cards@, CardType::Arts) >= 3,
                ChainType::Quick => spec_count_of_type(available_cards@, CardType::Quick)
                    >= 3,
                _ => false,
            }),
    {
        let target_type = match chain_type {
            ChainType::Buster => CardType::Buster,
            ChainType::Arts => CardType::Arts,
            ChainType::Quick => CardType::Quick,
            _ => {
                return false;
            }
        };
        let mut count: usize = 0;
        let mut i: usize = 0;
        while i < available_cards.len()
            invariant
                i <= available_cards@.len(),
                (chain_type is Buster && target_type is Buster) || (chain_type is Arts
                    && target_type is Arts) || (chain_type is Quick && target_type is Quick),
                count == spec_count_of_type(available_cards@.take(i as int), target_type),
                count <= i,
            decreases available_cards@.len() - i,
        {
            proof {
                reveal_with_fuel(Seq::<_>::filter, 2);
                assert(available_cards@.take(i + 1).drop_last()
                    =~= available_cards@.take(i as int));
                assert(available_cards@.take(i + 1).last() == available_cards@[i as int]);
            }
            if available_cards[i].card_type == target_type {
                count = count + 1;
            }
            i = i + 1;
        }
        proof {
            assert(available_cards@.take(available_cards@.len() as int) =~= available_cards@);
        }
        count >= 3
    }

    /// Check if a brave chain can be formed for a servant: it takes three
    /// of the servant's cards.
    pub fn can_form_brave_chain(&self, available_cards: &[Card], servant_idx: usize)
        -> (r: bool)
        ensures
            r == (spec_count_of_servant(available_cards@, servant_idx) >= 3),
    {
        let mut count: usize = 0;
        let mut i: usize = 0;
        while i < available_cards.len()
            invariant
                i <= available_cards@.len(),
                count == spec_count_of_servant(available_cards@.take(i as int), servant_idx),
                count <= i,
            decreases available_cards@.len() - i,
        {
            proof {
                reveal_with_fuel(Seq::<_>::filter, 2);
                assert(available_cards@.take(i + 1).drop_last()
                    =~= available_cards@.take(i as int));
                assert(available_cards@.take(i + 1).last() == available_cards@[i as int]);
            }
            if available_cards[i].servant_idx == servant_idx {
                count = count + 1;
            }
            i = i + 1;
        }
        proof {
            assert(available_cards@.take(available_cards@.len() as int) =~= available_cards@);
        }
        count >= 3
    }
}

/// The configured first-choice card type.
pub open spec fn set_first_choice(set: Settings) -> CardType {
    set.card_priority.first_choice
}

/// How many cards in the row are of the given type.
pub open spec fn spec_count_of_type(cards: Seq<Card>, t: CardType) -> nat {
    cards.filter(|c: Card| c.card_type == t).len()
}

/// How many cards in the row belong to the given servant.
pub open spec fn spec_count_of_servant(cards: Seq<Card>, servant_idx: usize) -> nat {
    cards.filter(|c: Card| c.servant_idx == servant_idx).len()
}

/// The last-max index is always in range of a non-empty list.
proof fn lemma_last_max_conf_in_range(s: Seq<Card>)
    requires
        s.len() >= 1,
    ensures
        0 <= spec_last_max_conf(s) < s.len(),
    decreases s.len(),
{
    if s.len() > 1 {
        lemma_last_max_conf_in_range(s.drop_last());
    }
}

/// The index of the matching card with the highest confidence; the last
/// one on ties.
pub open spec fn spec_last_max_conf(s: Seq<Card>) -> int
    decreases s.len(),
{
    if s.len() <= 1 {
        0
    } else {
        let m = spec_last_max_conf(s.drop_last());
        if s.last().confidence >= s[m].confidence {
            s.len() - 1
        } else {
            m
        }
    }
}

/// Result of card selection.
#[derive(Debug, Clone)]
pub struct CardSelectionResult {
    /// Selected cards in order.
    pub cards: Vec<Card>,
    /// Type of chain formed (if any).
    pub chain_type: ChainType,
    /// Whether a brave chain is formed.
    pub is_brave_chain: bool,
    /// Score of this selection, in thousandths.
    pub score: u64,
}

} // verus!
