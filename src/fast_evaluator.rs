//! The perfect-hash evaluator: five packed cards to a strength value from 1 (a royal
//! flush, the best hand) to 7462 (seven high, the worst), in three table lookups.

use crate::card::{standard_deck, Card, Suit};
use crate::flush_table::{flush_value, flush_value_at};
use crate::hash_adjust_table::{hash_adjust, hash_adjust_at};
use crate::hash_value_table::{hash_value, hash_value_at};
use crate::unique5_table::{unique5_value, unique5_value_at};
use vstd::prelude::*;

verus! {

/// The categories of a five-card hand, best first.
#[derive(Debug, PartialEq, Eq, Clone, Copy, Hash, Structural)]
pub enum Category {
    RoyalFlush,
    StraightFlush,
    FourOfAKind,
    FullHouse,
    Flush,
    Straight,
    ThreeOfAKind,
    TwoPair,
    OnePair,
    HighCard,
}

impl Category {
    /// Position in declaration order, best first.
    pub open spec fn order_spec(self) -> int {
        match self {
            Category::RoyalFlush => 0,
            Category::StraightFlush => 1,
            Category::FourOfAKind => 2,
            Category::FullHouse => 3,
            Category::Flush => 4,
            Category::Straight => 5,
            Category::ThreeOfAKind => 6,
            Category::TwoPair => 7,
            Category::OnePair => 8,
            Category::HighCard => 9,
        }
    }
}

/// The category of a strength value: the values of each category form one band, the
/// better categories the lower values, the royal flush alone at 1.
pub open spec fn category_of_strength(v: int) -> Category {
    if v <= 1 {
        Category::RoyalFlush
    } else if v <= 10 {
        Category::StraightFlush
    } else if v <= 166 {
        Category::FourOfAKind
    } else if v <= 322 {
        Category::FullHouse
    } else if v <= 1599 {
        Category::Flush
    } else if v <= 1609 {
        Category::Straight
    } else if v <= 2467 {
        Category::ThreeOfAKind
    } else if v <= 3325 {
        Category::TwoPair
    } else if v <= 6185 {
        Category::OnePair
    } else {
        Category::HighCard
    }
}

/// A lower strength value never has a worse category: the numbers and the categories
/// run in one direction.
pub proof fn lemma_strength_bands_ordered(v: int, w: int)
    requires
        1 <= v <= w <= 7462,
    ensures
        category_of_strength(v).order_spec() <= category_of_strength(w).order_spec(),
{
}

/// The prime that stands for rank value `val` (2 for a two, up to 41 for an ace).
pub open spec fn prime_of(val: u8) -> u32 {
    if val == 2 {
        2
    } else if val == 3 {
        3
    } else if val == 4 {
        5
    } else if val == 5 {
        7
    } else if val == 6 {
        11
    } else if val == 7 {
        13
    } else if val == 8 {
        17
    } else if val == 9 {
        19
    } else if val == 10 {
        23
    } else if val == 11 {
        29
    } else if val == 12 {
        31
    } else if val == 13 {
        37
    } else {
        41
    }
}

/// The one-hot suit field of a packed card, before it is shifted into place.
pub open spec fn suit_bit(s: Suit) -> u32 {
    match s {
        Suit::Hearts => 1,
        Suit::Diamonds => 2,
        Suit::Spades => 4,
        Suit::Clubs => 8,
    }
}

/// The packed form of a legal card: the rank's prime in bits 0 to 7, the rank index
/// (value minus two) in bits 8 to 11, the one-hot suit in bits 12 to 15 and a one-hot
/// rank bit in bits 16 to 28.
pub open spec fn packed(c: Card) -> u32 {
    let r = (c.val - 2) as u32;
    prime_of(c.val) | (r << 8u32) | (suit_bit(c.suit) << 12u32) | (1u32 << (16 + r) as u32)
}

/// A packed card is the packed form of some legal card.
pub open spec fn is_packed(p: u32) -> bool {
    exists|c: Card| c.is_legal() && #[trigger] packed(c) == p
}

/// `x + y` modulo 2 to the 32.
pub open spec fn add32(x: u32, y: u32) -> u32 {
    ((x + y) % 0x1_0000_0000) as u32
}

/// The slot of the hash-value table for a product of five rank primes.
pub open spec fn find_fast_spec(u: u32) -> int {
    let u1 = add32(u, 0xe91aaa35u32);
    let u2 = u1 ^ (u1 >> 16u32);
    let u3 = add32(u2, u2 << 8u32);
    let u4 = u3 ^ (u3 >> 4u32);
    let b = (u4 >> 8u32) & 0x1ffu32;
    let a = add32(u4, u4 << 2u32) >> 19u32;
    (a ^ (hash_adjust(b as int) as u32)) as int
}

/// The strength value of five packed cards: the flush table when the five share a suit,
/// else the table of five distinct ranks where it has an entry, else the hash-value table
/// at the slot of the product of the five rank primes.
pub open spec fn strength_of_packed(c1: u32, c2: u32, c3: u32, c4: u32, c5: u32) -> int {
    let q = ((c1 | c2 | c3 | c4 | c5) >> 16u32) as int;
    if (c1 & c2 & c3 & c4 & c5 & 0xf000u32) != 0 {
        flush_value(q) as int
    } else if unique5_value(q) != 0 {
        unique5_value(q) as int
    } else {
        let product = (c1 & 0xff) as int * (c2 & 0xff) as int * (c3 & 0xff) as int * (c4 & 0xff) as int * (c5
            & 0xff) as int;
        hash_value(find_fast_spec(product as u32)) as int
    }
}

proof fn lemma_packed_fields(p: u32, r: u32, s: u32)
    requires
        p < 256,
        r < 13,
        s < 16,
    ensures
        (p | (r << 8u32) | (s << 12u32) | (1u32 << (16 + r) as u32)) & 0xffu32 == p,
        (p | (r << 8u32) | (s << 12u32) | (1u32 << (16 + r) as u32)) < 0x2000_0000u32,
{
    assert((p | (r << 8u32) | (s << 12u32) | (1u32 << (16 + r) as u32)) & 0xffu32 == p) by (bit_vector)
        requires
            p < 256,
            r < 13,
            s < 16,
    ;
    assert((p | (r << 8u32) | (s << 12u32) | (1u32 << (16 + r) as u32)) < 0x2000_0000u32) by (bit_vector)
        requires
            p < 256,
            r < 13,
            s < 16,
    ;
}

/// The low byte of a packed card is the prime of its rank.
proof fn lemma_packed_prime(p: u32)
    requires
        is_packed(p),
    ensures
        2 <= p & 0xff <= 41,
        p < 0x2000_0000,
{
    let c = choose|c: Card| c.is_legal() && #[trigger] packed(c) == p;
    lemma_packed_fields(prime_of(c.val), (c.val - 2) as u32, suit_bit(c.suit));
}

/// The one-hot bit of a card's rank in the 13-bit rank mask.
pub open spec fn rank_bit(c: Card) -> u32 {
    1u32 << (c.val - 2) as u32
}

/// The 13-bit mask of the ranks present among five cards.
pub open spec fn rank_mask(a: Card, b: Card, c: Card, d: Card, e: Card) -> u32 {
    rank_bit(a) | rank_bit(b) | rank_bit(c) | rank_bit(d) | rank_bit(e)
}

proof fn lemma_packed_parts(p: u32, r: u32, s: u32)
    requires
        p < 256,
        r < 13,
        s < 16,
    ensures
        (p | (r << 8u32) | (s << 12u32) | (1u32 << (16 + r) as u32)) & 0xf000u32 == s << 12u32,
        (p | (r << 8u32) | (s << 12u32) | (1u32 << (16 + r) as u32)) >> 16u32 == 1u32 << r,
{
    assert((p | (r << 8u32) | (s << 12u32) | (1u32 << (16 + r) as u32)) & 0xf000u32 == s << 12u32)
        by (bit_vector)
        requires
            p < 256,
            r < 13,
            s < 16,
    ;
    assert((p | (r << 8u32) | (s << 12u32) | (1u32 << (16 + r) as u32)) >> 16u32 == 1u32 << r)
        by (bit_vector)
        requires
            p < 256,
            r < 13,
            s < 16,
    ;
}

proof fn lemma_one_hot_and(s1: u32, s2: u32, s3: u32, s4: u32, s5: u32)
    requires
        s1 == 1 || s1 == 2 || s1 == 4 || s1 == 8,
        s2 == 1 || s2 == 2 || s2 == 4 || s2 == 8,
        s3 == 1 || s3 == 2 || s3 == 4 || s3 == 8,
        s4 == 1 || s4 == 2 || s4 == 4 || s4 == 8,
        s5 == 1 || s5 == 2 || s5 == 4 || s5 == 8,
    ensures
        ((s1 << 12u32) & (s2 << 12u32) & (s3 << 12u32) & (s4 << 12u32) & (s5 << 12u32) != 0) == (s1 == s2
            && s2 == s3 && s3 == s4 && s4 == s5),
{
    assert(((s1 << 12u32) & (s2 << 12u32) & (s3 << 12u32) & (s4 << 12u32) & (s5 << 12u32) != 0) == (s1
        == s2 && s2 == s3 && s3 == s4 && s4 == s5)) by (bit_vector)
        requires
            s1 == 1 || s1 == 2 || s1 == 4 || s1 == 8,
            s2 == 1 || s2 == 2 || s2 == 4 || s2 == 8,
            s3 == 1 || s3 == 2 || s3 == 4 || s3 == 8,
            s4 == 1 || s4 == 2 || s4 == 4 || s4 == 8,
            s5 == 1 || s5 == 2 || s5 == 4 || s5 == 8,
    ;
}

proof fn lemma_fields_of_five(x1: u32, x2: u32, x3: u32, x4: u32, x5: u32)
    ensures
        (x1 & x2 & x3 & x4 & x5 & 0xf000u32) == (x1 & 0xf000u32) & (x2 & 0xf000u32) & (x3 & 0xf000u32) & (x4
            & 0xf000u32) & (x5 & 0xf000u32),
        (x1 | x2 | x3 | x4 | x5) >> 16u32 == (x1 >> 16u32) | (x2 >> 16u32) | (x3 >> 16u32) | (x4 >> 16u32) | (x5
            >> 16u32),
{
    assert((x1 & x2 & x3 & x4 & x5 & 0xf000u32) == (x1 & 0xf000u32) & (x2 & 0xf000u32) & (x3 & 0xf000u32) & (
    x4 & 0xf000u32) & (x5 & 0xf000u32)) by (bit_vector);
    assert((x1 | x2 | x3 | x4 | x5) >> 16u32 == (x1 >> 16u32) | (x2 >> 16u32) | (x3 >> 16u32) | (x4 >> 16u32)
        | (x5 >> 16u32)) by (bit_vector);
}

proof fn lemma_packed_card(c: Card)
    requires
        c.is_legal(),
    ensures
        packed(c) & 0xf000u32 == suit_bit(c.suit) << 12u32,
        packed(c) >> 16u32 == rank_bit(c),
{
    lemma_packed_parts(prime_of(c.val), (c.val - 2) as u32, suit_bit(c.suit));
}

/// For five legal cards, the evaluator's first tier (the suit fields have a common bit)
/// applies exactly when the five share a suit, and the index of its first two tiers is
/// the mask of the ranks present.
pub proof fn lemma_packed_hand(a: Card, b: Card, c: Card, d: Card, e: Card)
    requires
        a.is_legal(),
        b.is_legal(),
        c.is_legal(),
        d.is_legal(),
        e.is_legal(),
    ensures
        (packed(a) & packed(b) & packed(c) & packed(d) & packed(e) & 0xf000u32 != 0) == (a.suit == b.suit
            && b.suit == c.suit && c.suit == d.suit && d.suit == e.suit),
        (packed(a) | packed(b) | packed(c) | packed(d) | packed(e)) >> 16u32 == rank_mask(a, b, c, d, e),
{
    lemma_packed_card(a);
    lemma_packed_card(b);
    lemma_packed_card(c);
    lemma_packed_card(d);
    lemma_packed_card(e);
    lemma_fields_of_five(packed(a), packed(b), packed(c), packed(d), packed(e));
    lemma_one_hot_and(suit_bit(a.suit), suit_bit(b.suit), suit_bit(c.suit), suit_bit(d.suit), suit_bit(e.suit));
}

proof fn lemma_mul_bound(x: int, y: int, bx: int, by: int)
    requires
        0 <= x <= bx,
        0 <= y <= by,
    ensures
        0 <= x * y <= bx * by,
{
    assert(0 <= x * y <= bx * by) by (nonlinear_arith)
        requires
            0 <= x <= bx,
            0 <= y <= by,
    ;
}

/// The perfect-hash evaluator and its card codec.
pub struct FastEvaluator;

impl FastEvaluator {
    /// The category of a strength value.
    pub fn rank_name(rank: u64) -> (r: Category)
        requires
            1 <= rank <= 7462,
        ensures
            r == category_of_strength(rank as int),
    {
        if rank == 1 {
            Category::RoyalFlush
        } else if rank <= 10 {
            Category::StraightFlush
        } else if rank <= 166 {
            Category::FourOfAKind
        } else if rank <= 322 {
            Category::FullHouse
        } else if rank <= 1599 {
            Category::Flush
        } else if rank <= 1609 {
            Category::Straight
        } else if rank <= 2467 {
            Category::ThreeOfAKind
        } else if rank <= 3325 {
            Category::TwoPair
        } else if rank <= 6185 {
            Category::OnePair
        } else {
            Category::HighCard
        }
    }

    /// The packed form of a legal card.
    pub fn encode(card: &Card) -> (r: u32)
        requires
            card.is_legal(),
        ensures
            r == packed(*card),
            is_packed(r),
    {
        let prime: u32 = match card.val {
            2 => 2,
            3 => 3,
            4 => 5,
            5 => 7,
            6 => 11,
            7 => 13,
            8 => 17,
            9 => 19,
            10 => 23,
            11 => 29,
            12 => 31,
            13 => 37,
            _ => 41,
        };
        let suit: u32 = match card.suit {
            Suit::Hearts => 1,
            Suit::Diamonds => 2,
            Suit::Spades => 4,
            Suit::Clubs => 8,
        };
        let r = (card.val - 2) as u32;
        let p = prime | (r << 8) | (suit << 12) | (1u32 << (16 + r));
        assert(packed(*card) == p);
        p
    }

    /// The slot of the hash-value table for a product of five rank primes.
    fn find_fast(u: u32) -> (r: usize)
        ensures
            r == find_fast_spec(u),
            r < 8192,
    {
        let u = u.wrapping_add(0xe91aaa35);
        let u = u ^ (u >> 16);
        let u = u.wrapping_add(u << 8);
        let u = u ^ (u >> 4);
        let b = (u >> 8) & 0x1ff;
        let a = u.wrapping_add(u << 2) >> 19;
        assert(b < 512) by (bit_vector)
            requires
                b == (u >> 8) & 0x1ff,
        ;
        assert(a < 8192) by (bit_vector)
            requires
                a == u.wrapping_add(u << 2) >> 19,
        ;
        let adjust = hash_adjust_at(b as usize) as u32;
        assert(adjust < 8192);
        let r = a ^ adjust;
        assert(r < 8192) by (bit_vector)
            requires
                a < 8192,
                adjust < 8192,
                r == a ^ adjust,
        ;
        r as usize
    }

    /// The strength value of five packed cards.
    pub fn eval_5cards_fast(c1: u32, c2: u32, c3: u32, c4: u32, c5: u32) -> (r: u16)
        requires
            is_packed(c1),
            is_packed(c2),
            is_packed(c3),
            is_packed(c4),
            is_packed(c5),
        ensures
            r == strength_of_packed(c1, c2, c3, c4, c5),
    {
        let q = ((c1 | c2 | c3 | c4 | c5) >> 16) as usize;
        proof {
            lemma_packed_prime(c1);
            lemma_packed_prime(c2);
            lemma_packed_prime(c3);
            lemma_packed_prime(c4);
            lemma_packed_prime(c5);
        }
        assert(q < 8192) by (bit_vector)
            requires
                q == (c1 | c2 | c3 | c4 | c5) >> 16u32,
                c1 < 0x2000_0000u32,
                c2 < 0x2000_0000u32,
                c3 < 0x2000_0000u32,
                c4 < 0x2000_0000u32,
                c5 < 0x2000_0000u32,
        ;
        if (c1 & c2 & c3 & c4 & c5 & 0xf000) != 0 {
            return flush_value_at(q);
        }
        let s = unique5_value_at(q);
        if s != 0 {
            return s;
        }
        let (p1, p2, p3, p4, p5) = (c1 & 0xff, c2 & 0xff, c3 & 0xff, c4 & 0xff, c5 & 0xff);
        proof {
            lemma_mul_bound(p1 as int, p2 as int, 41, 41);
            lemma_mul_bound(p1 * p2, p3 as int, 1681, 41);
            lemma_mul_bound(p1 * p2 * p3, p4 as int, 68921, 41);
            lemma_mul_bound(p1 * p2 * p3 * p4, p5 as int, 2825761, 41);
        }
        let product = p1 * p2 * p3 * p4 * p5;
        let i = Self::find_fast(product);
        hash_value_at(i)
    }

    /// The strength value of the five cards at the given positions of `standard_deck`.
    pub fn eval_5cards(c1: usize, c2: usize, c3: usize, c4: usize, c5: usize) -> (r: u16)
        requires
            c1 < 52,
            c2 < 52,
            c3 < 52,
            c4 < 52,
            c5 < 52,
        ensures
            r == strength_of_packed(
                packed(standard_deck()[c1 as int]),
                packed(standard_deck()[c2 as int]),
                packed(standard_deck()[c3 as int]),
                packed(standard_deck()[c4 as int]),
                packed(standard_deck()[c5 as int]),
            ),
    {
        let p1 = Self::encode(&deck_card(c1));
        let p2 = Self::encode(&deck_card(c2));
        let p3 = Self::encode(&deck_card(c3));
        let p4 = Self::encode(&deck_card(c4));
        let p5 = Self::encode(&deck_card(c5));
        Self::eval_5cards_fast(p1, p2, p3, p4, p5)
    }
}

/// The card at position `i` of `standard_deck`.
pub fn deck_card(i: usize) -> (c: Card)
    requires
        i < 52,
    ensures
        c == standard_deck()[i as int],
        c.is_legal(),
{
    let suit = if i < 13 {
        Suit::Hearts
    } else if i < 26 {
        Suit::Diamonds
    } else if i < 39 {
        Suit::Spades
    } else {
        Suit::Clubs
    };
    Card::new((i % 13 + 2) as u8, suit)
}

} // verus!
