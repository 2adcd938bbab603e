//! The pattern classifier: sorts a hand and reads its category from the order of its
//! rank values and suits.

use crate::fast_evaluator::Category;
use crate::card::{bag5, is_descending, lemma_five_to_multiset, stable_arrangement, Card, Hand, Suit};
use vstd::multiset::Multiset;
use core::cmp::Ordering;
use vstd::std_specs::cmp::PartialEqSpec;
use vstd::prelude::*;

verus! {

/// The categories of a five-card hand, best first; a high card carries the card.
#[derive(Debug, Clone, Copy)]
pub enum Rank {
    RoyalFlush,
    StraightFlush,
    FourOfAKind,
    FullHouse,
    Flush,
    Straight,
    ThreeOfAKind,
    TwoPair,
    OnePair,
    HighCard(Card),
    Unranked,
}

/// How many of the five cards have rank value `v`.
pub open spec fn rank_count(s: Seq<Card>, v: int) -> int {
    (if s[0].val == v { 1int } else { 0int }) + (if s[1].val == v { 1int } else { 0int }) + (if s[2].val
        == v { 1int } else { 0int }) + (if s[3].val == v { 1int } else { 0int }) + (if s[4].val == v {
        1int
    } else {
        0int
    })
}

/// All five cards have one suit.
pub open spec fn same_suit(s: Seq<Card>) -> bool {
    forall|i: int, j: int| 0 <= i < 5 && 0 <= j < 5 ==> #[trigger] s[i].suit == #[trigger] s[j].suit
}

/// The five cards have the rank values `lo` to `lo + 4`, one each.
pub open spec fn run_from(s: Seq<Card>, lo: int) -> bool {
    &&& rank_count(s, lo) == 1
    &&& rank_count(s, lo + 1) == 1
    &&& rank_count(s, lo + 2) == 1
    &&& rank_count(s, lo + 3) == 1
    &&& rank_count(s, lo + 4) == 1
}

/// The five cards are the ace-low run: A, 5, 4, 3, 2.
pub open spec fn is_wheel(s: Seq<Card>) -> bool {
    &&& rank_count(s, 14) == 1
    &&& rank_count(s, 5) == 1
    &&& rank_count(s, 4) == 1
    &&& rank_count(s, 3) == 1
    &&& rank_count(s, 2) == 1
}

/// Five consecutive rank values, the ace counting high or, in the wheel, low.
pub open spec fn is_straight(s: Seq<Card>) -> bool {
    (exists|lo: int| #[trigger] run_from(s, lo)) || is_wheel(s)
}

/// Some rank value occurs at least `n` times.
pub open spec fn has_count(s: Seq<Card>, n: int) -> bool {
    exists|v: int| #[trigger] rank_count(s, v) >= n
}

/// Three cards of one rank value and two of another.
pub open spec fn is_full_house(s: Seq<Card>) -> bool {
    exists|v: int, w: int| v != w && #[trigger] rank_count(s, v) == 3 && #[trigger] rank_count(s, w) == 2
}

/// Two different rank values occur at least twice each.
pub open spec fn has_two_pairs(s: Seq<Card>) -> bool {
    exists|v: int, w: int| v != w && #[trigger] rank_count(s, v) >= 2 && #[trigger] rank_count(s, w) >= 2
}

/// The first card of highest rank value.
pub open spec fn top_card(s: Seq<Card>) -> Card
    decreases s.len(),
{
    if s.len() <= 1 {
        s[0]
    } else {
        let t = top_card(s.drop_last());
        if s.last().val > t.val {
            s.last()
        } else {
            t
        }
    }
}

/// The category of five cards, the first that applies in order from best to worst.
pub open spec fn hand_rank(s: Seq<Card>) -> Rank {
    if same_suit(s) && run_from(s, 10) {
        Rank::RoyalFlush
    } else if same_suit(s) && is_straight(s) {
        Rank::StraightFlush
    } else if has_count(s, 4) {
        Rank::FourOfAKind
    } else if is_full_house(s) {
        Rank::FullHouse
    } else if same_suit(s) {
        Rank::Flush
    } else if is_straight(s) {
        Rank::Straight
    } else if has_count(s, 3) {
        Rank::ThreeOfAKind
    } else if has_two_pairs(s) {
        Rank::TwoPair
    } else if has_count(s, 2) {
        Rank::OnePair
    } else {
        Rank::HighCard(top_card(s))
    }
}

/// Five rank values, each one more than the next.
pub open spec fn is_seq(v0: int, v1: int, v2: int, v3: int, v4: int) -> bool {
    v0 == v1 + 1 && v1 == v2 + 1 && v2 == v3 + 1 && v3 == v4 + 1
}

proof fn lemma_top_card(s: Seq<Card>)
    requires
        s.len() >= 1,
    ensures
        s.contains(top_card(s)),
        forall|j: int| 0 <= j < s.len() ==> #[trigger] s[j].val <= top_card(s).val,
    decreases s.len(),
{
    if s.len() > 1 {
        let p = s.drop_last();
        lemma_top_card(p);
        let k = choose|k: int| 0 <= k < p.len() && p[k] == top_card(p);
        assert(s[k] == p[k]);
        assert(s[s.len() - 1] == s.last());
        assert forall|j: int| 0 <= j < s.len() implies #[trigger] s[j].val <= top_card(s).val by {
            if j < s.len() - 1 {
                assert(s[j] == p[j]);
            }
        }
    }
}

proof fn lemma_top_card_of_descending(s: Seq<Card>)
    requires
        s.len() >= 1,
        is_descending(s),
    ensures
        top_card(s) == s[0],
    decreases s.len(),
{
    if s.len() > 1 {
        let p = s.drop_last();
        assert(is_descending(p));
        lemma_top_card_of_descending(p);
        assert(s[0].val >= s[s.len() - 1].val);
    }
}

/// Reading the patterns of a sorted hand: each test on neighbouring cards is the
/// count-based property it stands for.
proof fn lemma_sorted_patterns(t: Seq<Card>)
    requires
        t.len() == 5,
        is_descending(t),
    ensures
        same_suit(t) == (t[0].suit == t[1].suit && t[1].suit == t[2].suit && t[2].suit == t[3].suit
            && t[3].suit == t[4].suit),
        run_from(t, 10) == (t[0].val == 14 && t[1].val == 13 && t[2].val == 12 && t[3].val == 11
            && t[4].val == 10),
        is_wheel(t) == (t[0].val == 14 && t[1].val == 5 && t[2].val == 4 && t[3].val == 3 && t[4].val
            == 2),
        is_straight(t) == (is_seq(t[0].val as int, t[1].val as int, t[2].val as int, t[3].val as int, t[4].val as int)
            || is_wheel(t)),
        has_count(t, 4) == (t[0].val == t[1].val && t[1].val == t[2].val && t[2].val == t[3].val
            || t[1].val == t[2].val && t[2].val == t[3].val && t[3].val == t[4].val),
        !has_count(t, 4) ==> is_full_house(t) == (t[0].val == t[1].val && t[1].val == t[2].val
            && t[3].val == t[4].val || t[2].val == t[3].val && t[3].val == t[4].val && t[0].val
            == t[1].val),
        has_count(t, 3) == (t[0].val == t[1].val && t[1].val == t[2].val || t[1].val == t[2].val
            && t[2].val == t[3].val || t[2].val == t[3].val && t[3].val == t[4].val),
        !has_count(t, 3) ==> has_two_pairs(t) == (t[0].val == t[1].val && t[2].val == t[3].val
            || t[0].val == t[1].val && t[3].val == t[4].val || t[1].val == t[2].val && t[3].val
            == t[4].val),
        has_count(t, 2) == (t[0].val == t[1].val || t[1].val == t[2].val || t[2].val == t[3].val
            || t[3].val == t[4].val),
        top_card(t) == t[0],
{
    let v0 = t[0].val as int;
    let v1 = t[1].val as int;
    let v2 = t[2].val as int;
    let v3 = t[3].val as int;
    let v4 = t[4].val as int;
    assert(v0 >= v1 && v1 >= v2 && v2 >= v3 && v3 >= v4) by {
        assert(t[0].val >= t[1].val);
        assert(t[1].val >= t[2].val);
        assert(t[2].val >= t[3].val);
        assert(t[3].val >= t[4].val);
    }
    if t[0].suit == t[1].suit && t[1].suit == t[2].suit && t[2].suit == t[3].suit && t[3].suit == t[4].suit {
        assert forall|i: int, j: int| 0 <= i < 5 && 0 <= j < 5 implies #[trigger] t[i].suit
            == #[trigger] t[j].suit by {}
    }
    if same_suit(t) {
        assert(t[0].suit == t[1].suit);
        assert(t[1].suit == t[2].suit);
        assert(t[2].suit == t[3].suit);
        assert(t[3].suit == t[4].suit);
    }
    if is_seq(v0, v1, v2, v3, v4) {
        assert(run_from(t, v4));
    }
    if exists|lo: int| #[trigger] run_from(t, lo) {
        let lo = choose|lo: int| #[trigger] run_from(t, lo);
        assert(rank_count(t, lo) == 1);
        assert(rank_count(t, lo + 4) == 1);
        assert(is_seq(v0, v1, v2, v3, v4));
    }
    if has_count(t, 4) {
        let v = choose|v: int| #[trigger] rank_count(t, v) >= 4;
        assert(rank_count(t, v) >= 4);
    }
    if v0 == v1 && v1 == v2 && v2 == v3 {
        assert(rank_count(t, v0) >= 4);
    }
    if v1 == v2 && v2 == v3 && v3 == v4 {
        assert(rank_count(t, v1) >= 4);
    }
    if has_count(t, 3) {
        let v = choose|v: int| #[trigger] rank_count(t, v) >= 3;
        assert(rank_count(t, v) >= 3);
    }
    if v0 == v1 && v1 == v2 {
        assert(rank_count(t, v0) >= 3);
    }
    if v1 == v2 && v2 == v3 {
        assert(rank_count(t, v1) >= 3);
    }
    if v2 == v3 && v3 == v4 {
        assert(rank_count(t, v2) >= 3);
    }
    if has_count(t, 2) {
        let v = choose|v: int| #[trigger] rank_count(t, v) >= 2;
        assert(rank_count(t, v) >= 2);
    }
    if v0 == v1 {
        assert(rank_count(t, v0) >= 2);
    }
    if v1 == v2 {
        assert(rank_count(t, v1) >= 2);
    }
    if v2 == v3 {
        assert(rank_count(t, v2) >= 2);
    }
    if v3 == v4 {
        assert(rank_count(t, v3) >= 2);
    }
    if !has_count(t, 4) {
        if is_full_house(t) {
            let (v, w) = choose|v: int, w: int|
                v != w && #[trigger] rank_count(t, v) == 3 && #[trigger] rank_count(t, w) == 2;
            assert(rank_count(t, v) == 3 && rank_count(t, w) == 2);
        }
        if v0 == v1 && v1 == v2 && v3 == v4 {
            assert(rank_count(t, v0) >= 4 || (rank_count(t, v0) == 3 && rank_count(t, v3) == 2));
        }
        if v2 == v3 && v3 == v4 && v0 == v1 {
            assert(rank_count(t, v2) >= 4 || (rank_count(t, v2) == 3 && rank_count(t, v0) == 2));
        }
    }
    if !has_count(t, 3) {
        if has_two_pairs(t) {
            let (v, w) = choose|v: int, w: int|
                v != w && #[trigger] rank_count(t, v) >= 2 && #[trigger] rank_count(t, w) >= 2;
            assert(rank_count(t, v) >= 2 && rank_count(t, w) >= 2);
        }
        if v0 == v1 && v2 == v3 {
            assert(rank_count(t, v0) >= 3 || (rank_count(t, v0) >= 2 && rank_count(t, v2) >= 2));
        }
        if v0 == v1 && v3 == v4 {
            assert(rank_count(t, v0) >= 3 || (rank_count(t, v0) >= 2 && rank_count(t, v3) >= 2));
        }
        if v1 == v2 && v3 == v4 {
            assert(rank_count(t, v1) >= 3 || (rank_count(t, v1) >= 2 && rank_count(t, v3) >= 2));
        }
    }
    lemma_top_card_of_descending(t);
}

/// How many cards of rank value `v` a multiset of cards holds.
pub open spec fn rank_count_in(m: Multiset<Card>, v: int) -> int {
    if 0 <= v < 256 {
        (m.count(Card { val: v as u8, suit: Suit::Hearts }) + m.count(Card { val: v as u8, suit: Suit::Diamonds })
            + m.count(Card { val: v as u8, suit: Suit::Spades }) + m.count(Card { val: v as u8, suit: Suit::Clubs })) as int
    } else {
        0
    }
}

/// One when card `c` is card `x`, else zero.
#[verifier::opaque]
spec fn hit(c: Card, x: Card) -> int {
    if c == x {
        1
    } else {
        0
    }
}

/// One when card `c` has rank value `v`, else zero.
#[verifier::opaque]
spec fn val_hit(c: Card, v: int) -> int {
    if c.val == v {
        1
    } else {
        0
    }
}

proof fn lemma_count_one_card(c: Card, v: int)
    requires
        0 <= v < 256,
    ensures
        hit(c, Card { val: v as u8, suit: Suit::Hearts }) + hit(c, Card { val: v as u8, suit: Suit::Diamonds })
            + hit(c, Card { val: v as u8, suit: Suit::Spades }) + hit(c, Card { val: v as u8, suit: Suit::Clubs })
            == val_hit(c, v),
{
    reveal(hit);
    reveal(val_hit);
}

proof fn lemma_bag5_count(a: Card, b: Card, c: Card, d: Card, e: Card, x: Card)
    ensures
        bag5(a, b, c, d, e).count(x) == hit(a, x) + hit(b, x) + hit(c, x) + hit(d, x) + hit(e, x),
{
    reveal(hit);
    let m0 = Multiset::<Card>::empty();
    let m1 = m0.insert(a);
    let m2 = m1.insert(b);
    let m3 = m2.insert(c);
    let m4 = m3.insert(d);
    assert(m1.count(x) == hit(a, x));
    assert(m2.count(x) == m1.count(x) + hit(b, x));
    assert(m3.count(x) == m2.count(x) + hit(c, x));
    assert(m4.count(x) == m3.count(x) + hit(d, x));
    assert(m4.insert(e).count(x) == m4.count(x) + hit(e, x));
}

proof fn lemma_rank_count_hits(s: Seq<Card>, v: int)
    ensures
        rank_count(s, v) == val_hit(s[0], v) + val_hit(s[1], v) + val_hit(s[2], v) + val_hit(s[3], v)
            + val_hit(s[4], v),
{
    reveal(val_hit);
}

proof fn lemma_rank_count_in(s: Seq<Card>, v: int)
    requires
        s.len() == 5,
    ensures
        rank_count(s, v) == rank_count_in(s.to_multiset(), v),
{
    lemma_five_to_multiset(s);
    lemma_rank_count_hits(s, v);
    if 0 <= v < 256 {
        let vv = v as u8;
        lemma_bag5_count(s[0], s[1], s[2], s[3], s[4], Card { val: vv, suit: Suit::Hearts });
        lemma_bag5_count(s[0], s[1], s[2], s[3], s[4], Card { val: vv, suit: Suit::Diamonds });
        lemma_bag5_count(s[0], s[1], s[2], s[3], s[4], Card { val: vv, suit: Suit::Spades });
        lemma_bag5_count(s[0], s[1], s[2], s[3], s[4], Card { val: vv, suit: Suit::Clubs });
        lemma_count_one_card(s[0], v);
        lemma_count_one_card(s[1], v);
        lemma_count_one_card(s[2], v);
        lemma_count_one_card(s[3], v);
        lemma_count_one_card(s[4], v);
    } else {
        reveal(val_hit);
    }
}

proof fn lemma_same_suit_of_permutation(s: Seq<Card>, t: Seq<Card>)
    requires
        s.len() == 5,
        t.len() == 5,
        s.to_multiset() == t.to_multiset(),
        same_suit(s),
    ensures
        same_suit(t),
{
    broadcast use vstd::seq_lib::group_to_multiset_ensures;

    assert forall|i: int, j: int| 0 <= i < 5 && 0 <= j < 5 implies #[trigger] t[i].suit
        == #[trigger] t[j].suit by {
        assert(t.contains(t[i]));
        assert(t.contains(t[j]));
        assert(s.to_multiset().count(t[i]) > 0);
        assert(s.to_multiset().count(t[j]) > 0);
        assert(s.contains(t[i]));
        assert(s.contains(t[j]));
        let a = choose|a: int| 0 <= a < s.len() && s[a] == t[i];
        let b = choose|b: int| 0 <= b < s.len() && s[b] == t[j];
        assert(s[a].suit == s[b].suit);
    }
}

proof fn lemma_top_card_of_permutation(s: Seq<Card>, t: Seq<Card>)
    requires
        s.len() == 5,
        t.len() == 5,
        s.to_multiset() == t.to_multiset(),
        !has_count(t, 2),
    ensures
        top_card(s) == top_card(t),
{
    broadcast use vstd::seq_lib::group_to_multiset_ensures;

    lemma_top_card(s);
    lemma_top_card(t);
    let top_s = top_card(s);
    let top_t = top_card(t);
    assert(s.to_multiset().count(top_s) > 0);
    assert(t.contains(top_s));
    assert(t.to_multiset().count(top_t) > 0);
    assert(s.contains(top_t));
    let a = choose|a: int| 0 <= a < 5 && t[a] == top_s;
    let b = choose|b: int| 0 <= b < 5 && t[b] == top_t;
    let c = choose|c: int| 0 <= c < 5 && s[c] == top_t;
    assert(top_s.val >= s[c].val);
    assert(top_t.val >= t[a].val);
    if a != b {
        assert(rank_count(t, top_s.val as int) >= 2);
    }
}

/// Two sequences of five cards with the same count of every rank value.
pub open spec fn same_counts(s: Seq<Card>, t: Seq<Card>) -> bool {
    forall|v: int| #[trigger] rank_count(s, v) == rank_count(t, v)
}

proof fn lemma_straight_of_counts(s: Seq<Card>, t: Seq<Card>)
    requires
        same_counts(s, t),
    ensures
        run_from(s, 10) == run_from(t, 10),
        is_straight(s) == is_straight(t),
{
    assert(forall|v: int| #[trigger] rank_count(t, v) == rank_count(s, v));
    if exists|lo: int| #[trigger] run_from(s, lo) {
        let lo = choose|lo: int| #[trigger] run_from(s, lo);
        assert(run_from(t, lo));
    }
    if exists|lo: int| #[trigger] run_from(t, lo) {
        let lo = choose|lo: int| #[trigger] run_from(t, lo);
        assert(run_from(s, lo));
    }
}

proof fn lemma_has_count_of_counts(s: Seq<Card>, t: Seq<Card>, n: int)
    requires
        same_counts(s, t),
    ensures
        has_count(s, n) == has_count(t, n),
{
    if has_count(s, n) {
        let v = choose|v: int| #[trigger] rank_count(s, v) >= n;
        assert(rank_count(t, v) >= n);
    }
    if has_count(t, n) {
        let v = choose|v: int| #[trigger] rank_count(t, v) >= n;
        assert(rank_count(s, v) >= n);
    }
}

proof fn lemma_pairs_of_counts(s: Seq<Card>, t: Seq<Card>)
    requires
        same_counts(s, t),
    ensures
        is_full_house(s) == is_full_house(t),
        has_two_pairs(s) == has_two_pairs(t),
{
    if is_full_house(s) {
        let (v, w) = choose|v: int, w: int|
            v != w && #[trigger] rank_count(s, v) == 3 && #[trigger] rank_count(s, w) == 2;
        assert(rank_count(t, v) == 3 && rank_count(t, w) == 2);
    }
    if is_full_house(t) {
        let (v, w) = choose|v: int, w: int|
            v != w && #[trigger] rank_count(t, v) == 3 && #[trigger] rank_count(t, w) == 2;
        assert(rank_count(s, v) == 3 && rank_count(s, w) == 2);
    }
    if has_two_pairs(s) {
        let (v, w) = choose|v: int, w: int|
            v != w && #[trigger] rank_count(s, v) >= 2 && #[trigger] rank_count(s, w) >= 2;
        assert(rank_count(t, v) >= 2 && rank_count(t, w) >= 2);
    }
    if has_two_pairs(t) {
        let (v, w) = choose|v: int, w: int|
            v != w && #[trigger] rank_count(t, v) >= 2 && #[trigger] rank_count(t, w) >= 2;
        assert(rank_count(s, v) >= 2 && rank_count(s, w) >= 2);
    }
}

proof fn lemma_hand_rank_from_counts(s: Seq<Card>, t: Seq<Card>)
    requires
        same_counts(s, t),
        same_suit(s) == same_suit(t),
        !has_count(s, 2) ==> top_card(s) == top_card(t),
    ensures
        hand_rank(s) == hand_rank(t),
{
    lemma_straight_of_counts(s, t);
    lemma_has_count_of_counts(s, t, 2);
    lemma_has_count_of_counts(s, t, 3);
    lemma_has_count_of_counts(s, t, 4);
    lemma_pairs_of_counts(s, t);
}

/// The category of five cards does not depend on their order.
pub proof fn lemma_hand_rank_permutation(s: Seq<Card>, t: Seq<Card>)
    requires
        s.len() == 5,
        t.len() == 5,
        s.to_multiset() == t.to_multiset(),
    ensures
        hand_rank(s) == hand_rank(t),
{
    assert forall|v: int| #[trigger] rank_count(s, v) == rank_count(t, v) by {
        lemma_rank_count_in(s, v);
        lemma_rank_count_in(t, v);
    }
    if same_suit(s) {
        lemma_same_suit_of_permutation(s, t);
    }
    if same_suit(t) {
        lemma_same_suit_of_permutation(t, s);
    }
    if !has_count(s, 2) {
        assert(!has_count(t, 2)) by {
            if has_count(t, 2) {
                let v = choose|v: int| #[trigger] rank_count(t, v) >= 2;
                assert(rank_count(s, v) >= 2);
            }
        }
        lemma_top_card_of_permutation(s, t);
    }
    lemma_hand_rank_from_counts(s, t);
}

/// The pattern classifier.
pub struct MatchHandEvaluator;

impl MatchHandEvaluator {
    /// Sorts the hand in descending order of rank value, then reads its category from the
    /// sorted cards.
    pub fn match_eval(hand: &mut Hand) -> (r: Rank)
        ensures
            r == hand_rank(old(hand)@),
            final(hand)@.len() == 5,
            final(hand)@.to_multiset() == old(hand)@.to_multiset(),
            is_descending(final(hand)@),
            exists|p: Seq<int>| stable_arrangement(old(hand)@, final(hand)@, p),
    {
        hand.sort();
        let cards = hand.get_hand_slice();
        let c0 = cards[0];
        let c1 = cards[1];
        let c2 = cards[2];
        let c3 = cards[3];
        let c4 = cards[4];
        let (v1, v2, v3, v4, v5) = (c0.val, c1.val, c2.val, c3.val, c4.val);
        proof {
            old(hand).lemma_five();
            lemma_sorted_patterns(cards@);
            lemma_hand_rank_permutation(old(hand)@, cards@);
            assert(cards@[0] == c0 && cards@[1] == c1 && cards@[2] == c2 && cards@[3] == c3 && cards@[4] == c4);
        }
        let flush = Self::suits(&c0.suit, &c1.suit, &c2.suit, &c3.suit, &c4.suit);
        let run = Self::seq(v1, v2, v3, v4, v5);
        let wheel = v1 == 14 && v2 == 5 && v3 == 4 && v4 == 3 && v5 == 2;
        if flush && v1 == 14 && v2 == 13 && v3 == 12 && v4 == 11 && v5 == 10 {
            Rank::RoyalFlush
        } else if flush && run {
            Rank::StraightFlush
        } else if flush && wheel {
            Rank::StraightFlush
        } else if v1 == v2 && v2 == v3 && v3 == v4 || v2 == v3 && v3 == v4 && v4 == v5 {
            Rank::FourOfAKind
        } else if v1 == v2 && v2 == v3 && v4 == v5 || v3 == v4 && v4 == v5 && v1 == v2 {
            Rank::FullHouse
        } else if flush {
            Rank::Flush
        } else if run {
            Rank::Straight
        } else if wheel {
            Rank::Straight
        } else if v1 == v2 && v2 == v3 || v2 == v3 && v3 == v4 || v3 == v4 && v4 == v5 {
            Rank::ThreeOfAKind
        } else if v1 == v2 && v3 == v4 || v1 == v2 && v4 == v5 || v2 == v3 && v4 == v5 {
            Rank::TwoPair
        } else if v1 == v2 || v2 == v3 || v3 == v4 || v4 == v5 {
            Rank::OnePair
        } else {
            Rank::HighCard(c0)
        }
    }

    /// Whether the five suits are one.
    pub fn suits(c0: &Suit, c1: &Suit, c2: &Suit, c3: &Suit, c4: &Suit) -> (r: bool)
        ensures
            r == (*c0 == *c1 && *c1 == *c2 && *c2 == *c3 && *c3 == *c4),
    {
        *c0 == *c1 && *c1 == *c2 && *c2 == *c3 && *c3 == *c4
    }

    /// Whether the five rank values run down by one at each step.
    pub fn seq(v0: u8, v1: u8, v2: u8, v3: u8, v4: u8) -> (r: bool)
        ensures
            r == is_seq(v0 as int, v1 as int, v2 as int, v3 as int, v4 as int),
    {
        v0 as u16 == v1 as u16 + 1 && v1 as u16 == v2 as u16 + 1 && v2 as u16 == v3 as u16 + 1 && v3 as u16
            == v4 as u16 + 1
    }
}

impl Rank {
    /// Position of the category in declaration order, best first.
    pub open spec fn order_spec(self) -> int {
        match self {
            Rank::RoyalFlush => 0,
            Rank::StraightFlush => 1,
            Rank::FourOfAKind => 2,
            Rank::FullHouse => 3,
            Rank::Flush => 4,
            Rank::Straight => 5,
            Rank::ThreeOfAKind => 6,
            Rank::TwoPair => 7,
            Rank::OnePair => 8,
            Rank::HighCard(_) => 9,
            Rank::Unranked => 10,
        }
    }

    /// The rank value of a high card's card; zero for the other categories.
    pub open spec fn kicker_spec(self) -> int {
        match self {
            Rank::HighCard(c) => c.val as int,
            _ => 0,
        }
    }

    /// Position of the category in declaration order, best first.
    pub fn order(&self) -> (r: u8)
        ensures
            r == self.order_spec(),
    {
        match self {
            Rank::RoyalFlush => 0,
            Rank::StraightFlush => 1,
            Rank::FourOfAKind => 2,
            Rank::FullHouse => 3,
            Rank::Flush => 4,
            Rank::Straight => 5,
            Rank::ThreeOfAKind => 6,
            Rank::TwoPair => 7,
            Rank::OnePair => 8,
            Rank::HighCard(_) => 9,
            Rank::Unranked => 10,
        }
    }

    fn kicker(&self) -> (r: u8)
        ensures
            r == self.kicker_spec(),
    {
        match self {
            Rank::HighCard(c) => c.val,
            _ => 0,
        }
    }

    /// The category without its card, `None` for `Unranked`.
    pub open spec fn category_spec(self) -> Option<Category> {
        match self {
            Rank::RoyalFlush => Some(Category::RoyalFlush),
            Rank::StraightFlush => Some(Category::StraightFlush),
            Rank::FourOfAKind => Some(Category::FourOfAKind),
            Rank::FullHouse => Some(Category::FullHouse),
            Rank::Flush => Some(Category::Flush),
            Rank::Straight => Some(Category::Straight),
            Rank::ThreeOfAKind => Some(Category::ThreeOfAKind),
            Rank::TwoPair => Some(Category::TwoPair),
            Rank::OnePair => Some(Category::OnePair),
            Rank::HighCard(_) => Some(Category::HighCard),
            Rank::Unranked => None,
        }
    }

    /// The category without its card, `None` for `Unranked`.
    pub fn category(&self) -> (r: Option<Category>)
        ensures
            r == self.category_spec(),
    {
        match self {
            Rank::RoyalFlush => Some(Category::RoyalFlush),
            Rank::StraightFlush => Some(Category::StraightFlush),
            Rank::FourOfAKind => Some(Category::FourOfAKind),
            Rank::FullHouse => Some(Category::FullHouse),
            Rank::Flush => Some(Category::Flush),
            Rank::Straight => Some(Category::Straight),
            Rank::ThreeOfAKind => Some(Category::ThreeOfAKind),
            Rank::TwoPair => Some(Category::TwoPair),
            Rank::OnePair => Some(Category::OnePair),
            Rank::HighCard(_) => Some(Category::HighCard),
            Rank::Unranked => None,
        }
    }
}

/// How two ranks compare, the better one first: by category in declaration order, and
/// between two high cards, the higher card first.
pub open spec fn rank_cmp(a: Rank, b: Rank) -> Ordering {
    if a.order_spec() < b.order_spec() {
        Ordering::Less
    } else if a.order_spec() > b.order_spec() {
        Ordering::Greater
    } else if a.kicker_spec() > b.kicker_spec() {
        Ordering::Less
    } else if a.kicker_spec() < b.kicker_spec() {
        Ordering::Greater
    } else {
        Ordering::Equal
    }
}

impl PartialEq for Rank {
    fn eq(&self, other: &Rank) -> (r: bool) {
        self.order() == other.order() && self.kicker() == other.kicker()
    }
}

impl vstd::std_specs::cmp::PartialEqSpecImpl for Rank {
    open spec fn obeys_eq_spec() -> bool {
        true
    }

    open spec fn eq_spec(&self, other: &Rank) -> bool {
        self.order_spec() == other.order_spec() && self.kicker_spec() == other.kicker_spec()
    }
}

impl PartialOrd for Rank {
    fn partial_cmp(&self, other: &Rank) -> (r: Option<Ordering>) {
        let (a, b) = (self.order(), other.order());
        if a < b {
            Some(Ordering::Less)
        } else if a > b {
            Some(Ordering::Greater)
        } else {
            let (x, y) = (self.kicker(), other.kicker());
            if x > y {
                Some(Ordering::Less)
            } else if x < y {
                Some(Ordering::Greater)
            } else {
                Some(Ordering::Equal)
            }
        }
    }
}

impl vstd::std_specs::cmp::PartialOrdSpecImpl for Rank {
    open spec fn obeys_partial_cmp_spec() -> bool {
        true
    }

    open spec fn partial_cmp_spec(&self, other: &Rank) -> Option<Ordering> {
        Some(rank_cmp(*self, *other))
    }
}

/// The order of ranks is total: two ranks compare equal exactly when they are equal,
/// `a` is before `b` exactly when `b` is after `a`, and being before is transitive.
pub proof fn lemma_rank_order_total(a: Rank, b: Rank, c: Rank)
    ensures
        (rank_cmp(a, b) == Ordering::Equal) == a.eq_spec(&b),
        (rank_cmp(a, b) == Ordering::Less) == (rank_cmp(b, a) == Ordering::Greater),
        rank_cmp(a, b) == Ordering::Less && rank_cmp(b, c) == Ordering::Less ==> rank_cmp(a, c)
            == Ordering::Less,
        rank_cmp(a, b) != Ordering::Greater && rank_cmp(b, c) != Ordering::Greater ==> rank_cmp(a, c)
            != Ordering::Greater,
{
}

/// The categories are ordered as declared, best first: royal flush, straight flush, four
/// of a kind, full house, flush, straight, three of a kind, two pair, one pair, high card
/// (whatever its card), and last `Unranked`.
pub proof fn lemma_category_order(c: Card)
    ensures
        rank_cmp(Rank::RoyalFlush, Rank::StraightFlush) == Ordering::Less,
        rank_cmp(Rank::StraightFlush, Rank::FourOfAKind) == Ordering::Less,
        rank_cmp(Rank::FourOfAKind, Rank::FullHouse) == Ordering::Less,
        rank_cmp(Rank::FullHouse, Rank::Flush) == Ordering::Less,
        rank_cmp(Rank::Flush, Rank::Straight) == Ordering::Less,
        rank_cmp(Rank::Straight, Rank::ThreeOfAKind) == Ordering::Less,
        rank_cmp(Rank::ThreeOfAKind, Rank::TwoPair) == Ordering::Less,
        rank_cmp(Rank::TwoPair, Rank::OnePair) == Ordering::Less,
        rank_cmp(Rank::OnePair, Rank::HighCard(c)) == Ordering::Less,
        rank_cmp(Rank::HighCard(c), Rank::Unranked) == Ordering::Less,
{
}

} // verus!
