//! Cards, their textual form, hands of five and a deck of fifty-two.

use rand::seq::SliceRandom;
use vstd::multiset::Multiset;
use vstd::prelude::*;

verus! {

/// The four suits of a deck.
#[derive(Debug, PartialEq, Eq, Clone, Copy, Hash, Structural)]
pub enum Suit {
    Hearts,
    Diamonds,
    Spades,
    Clubs,
}

impl Suit {
    /// The suit at position `i` of declaration order.
    pub open spec fn from_index(i: nat) -> Suit {
        if i == 0 {
            Suit::Hearts
        } else if i == 1 {
            Suit::Diamonds
        } else if i == 2 {
            Suit::Spades
        } else {
            Suit::Clubs
        }
    }

    /// The lower-case letter that names the suit in a card token.
    pub open spec fn letter_spec(self) -> char {
        match self {
            Suit::Hearts => 'h',
            Suit::Diamonds => 'd',
            Suit::Spades => 's',
            Suit::Clubs => 'c',
        }
    }

    /// The lower-case letter that names the suit in a card token.
    pub fn letter(&self) -> (r: char)
        ensures
            r == self.letter_spec(),
    {
        match self {
            Suit::Hearts => 'h',
            Suit::Diamonds => 'd',
            Suit::Spades => 's',
            Suit::Clubs => 'c',
        }
    }
}

/// A card: a rank value (2 to 10, then 11 = J, 12 = Q, 13 = K, 14 = A) and a suit.
///
/// Two cards are equal, and ordered, by rank value alone.
#[derive(Debug, Clone, Copy)]
pub struct Card {
    pub val: u8,
    pub suit: Suit,
}

impl Card {
    /// A card of a real deck has a rank value from 2 to 14.
    pub open spec fn is_legal(self) -> bool {
        2 <= self.val <= 14
    }

    /// The card of rank value `val` in suit `suit`.
    pub fn new(val: u8, suit: Suit) -> (c: Card)
        ensures
            c == (Card { val, suit }),
    {
        Card { suit, val }
    }

    /// The text of the rank in a card token: `2` to `10`, `J`, `Q`, `K`, `A`.
    pub open spec fn rank_text(val: u8) -> Seq<char> {
        if val == 14 {
            seq!['A']
        } else if val == 13 {
            seq!['K']
        } else if val == 12 {
            seq!['Q']
        } else if val == 11 {
            seq!['J']
        } else if val == 10 {
            seq!['1', '0']
        } else {
            seq![digit_char(val)]
        }
    }

    /// The token that names this card, rank text then suit letter (`10h`, `Ad`).
    pub open spec fn token(self) -> Seq<char> {
        Card::rank_text(self.val).push(self.suit.letter_spec())
    }

    /// The rank text of this card (see `rank_text`).
    pub fn rank_symbol(&self) -> (r: &'static str)
        requires
            self.is_legal(),
        ensures
            r@ == Card::rank_text(self.val),
    {
        proof {
            reveal_strlit("A");
            reveal_strlit("K");
            reveal_strlit("Q");
            reveal_strlit("J");
            reveal_strlit("10");
            reveal_strlit("9");
            reveal_strlit("8");
            reveal_strlit("7");
            reveal_strlit("6");
            reveal_strlit("5");
            reveal_strlit("4");
            reveal_strlit("3");
            reveal_strlit("2");
        }
        match self.val {
            14 => "A",
            13 => "K",
            12 => "Q",
            11 => "J",
            10 => "10",
            9 => "9",
            8 => "8",
            7 => "7",
            6 => "6",
            5 => "5",
            4 => "4",
            3 => "3",
            _ => "2",
        }
    }

    /// Reads a card token: a rank (`2`..`9`, `10`, `J`, `Q`, `K`, `A`) followed by one
    /// suit letter (`h`, `d`, `s`, `c`, in either case).
    pub fn parse(text: &str) -> (r: Result<Card, CardError>)
        ensures
            r == card_from_text(text@),
    {
        let n = text.unicode_len();
        if n != 2 && n != 3 {
            return Err(CardError::InvalidLength);
        }
        let first = text.get_char(0);
        let val: u8;
        let rank_len: usize;
        if first == '1' {
            if text.get_char(1) != '0' {
                return Err(CardError::InvalidValue);
            }
            val = 10;
            rank_len = 2;
        } else {
            match rank_from_symbol(first) {
                Some(v) => {
                    val = v;
                    rank_len = 1;
                },
                None => {
                    return Err(CardError::InvalidValue);
                },
            }
        }
        if n != rank_len + 1 {
            return Err(CardError::InvalidLength);
        }
        match suit_from_letter(text.get_char(rank_len)) {
            Some(suit) => Ok(Card::new(val, suit)),
            None => Err(CardError::InvalidSuit),
        }
    }
}

/// The decimal digit for a value from 0 to 9.
pub open spec fn digit_char(d: u8) -> char {
    if d == 0 {
        '0'
    } else if d == 1 {
        '1'
    } else if d == 2 {
        '2'
    } else if d == 3 {
        '3'
    } else if d == 4 {
        '4'
    } else if d == 5 {
        '5'
    } else if d == 6 {
        '6'
    } else if d == 7 {
        '7'
    } else if d == 8 {
        '8'
    } else {
        '9'
    }
}

/// The rank value named by a one-character rank symbol.
pub open spec fn rank_of_symbol(c: char) -> Option<u8> {
    if c == 'A' {
        Some(14u8)
    } else if c == 'K' {
        Some(13u8)
    } else if c == 'Q' {
        Some(12u8)
    } else if c == 'J' {
        Some(11u8)
    } else if '2' <= c <= '9' {
        Some((c as u32 - '0' as u32) as u8)
    } else {
        None
    }
}

/// The suit named by a suit letter, in either case.
pub open spec fn suit_of_letter(c: char) -> Option<Suit> {
    if c == 'h' || c == 'H' {
        Some(Suit::Hearts)
    } else if c == 'd' || c == 'D' {
        Some(Suit::Diamonds)
    } else if c == 's' || c == 'S' {
        Some(Suit::Spades)
    } else if c == 'c' || c == 'C' {
        Some(Suit::Clubs)
    } else {
        None
    }
}

/// The card that a token names, or why it names none.
pub open spec fn card_from_text(t: Seq<char>) -> Result<Card, CardError> {
    if t.len() != 2 && t.len() != 3 {
        Err(CardError::InvalidLength)
    } else if t[0] == '1' {
        if t[1] != '0' {
            Err(CardError::InvalidValue)
        } else if t.len() != 3 {
            Err(CardError::InvalidLength)
        } else {
            match suit_of_letter(t[2]) {
                Some(suit) => Ok(Card { val: 10, suit }),
                None => Err(CardError::InvalidSuit),
            }
        }
    } else {
        match rank_of_symbol(t[0]) {
            None => Err(CardError::InvalidValue),
            Some(val) => if t.len() != 2 {
                Err(CardError::InvalidLength)
            } else {
                match suit_of_letter(t[1]) {
                    Some(suit) => Ok(Card { val, suit }),
                    None => Err(CardError::InvalidSuit),
                }
            },
        }
    }
}

fn rank_from_symbol(c: char) -> (r: Option<u8>)
    ensures
        r == rank_of_symbol(c),
{
    match c {
        'A' => Some(14),
        'K' => Some(13),
        'Q' => Some(12),
        'J' => Some(11),
        '2'..='9' => Some((c as u32 - '0' as u32) as u8),
        _ => None,
    }
}

fn suit_from_letter(c: char) -> (r: Option<Suit>)
    ensures
        r == suit_of_letter(c),
{
    match c {
        'h' | 'H' => Some(Suit::Hearts),
        'd' | 'D' => Some(Suit::Diamonds),
        's' | 'S' => Some(Suit::Spades),
        'c' | 'C' => Some(Suit::Clubs),
        _ => None,
    }
}

/// Every legal card is read back from its own token.
pub proof fn lemma_token_round_trip(c: Card)
    requires
        c.is_legal(),
    ensures
        card_from_text(c.token()) == Ok::<Card, CardError>(c),
{
}

impl PartialEq for Card {
    fn eq(&self, other: &Card) -> (r: bool) {
        self.val == other.val
    }
}

impl vstd::std_specs::cmp::PartialEqSpecImpl for Card {
    open spec fn obeys_eq_spec() -> bool {
        true
    }

    open spec fn eq_spec(&self, other: &Card) -> bool {
        self.val == other.val
    }
}

impl Eq for Card {

}

impl PartialOrd for Card {
    fn partial_cmp(&self, other: &Card) -> (r: Option<core::cmp::Ordering>) {
        if self.val < other.val {
            Some(core::cmp::Ordering::Less)
        } else if self.val > other.val {
            Some(core::cmp::Ordering::Greater)
        } else {
            Some(core::cmp::Ordering::Equal)
        }
    }
}

impl vstd::std_specs::cmp::PartialOrdSpecImpl for Card {
    open spec fn obeys_partial_cmp_spec() -> bool {
        true
    }

    open spec fn partial_cmp_spec(&self, other: &Card) -> Option<core::cmp::Ordering> {
        if self.val < other.val {
            Some(core::cmp::Ordering::Less)
        } else if self.val > other.val {
            Some(core::cmp::Ordering::Greater)
        } else {
            Some(core::cmp::Ordering::Equal)
        }
    }
}

/// Why a token names no card.
#[derive(Debug, PartialEq, Eq, Clone, Copy, Structural)]
pub enum CardError {
    /// The token is not a rank followed by one suit letter in length.
    InvalidLength,
    /// The token does not start with a rank.
    InvalidValue,
    /// The letter after the rank names no suit.
    InvalidSuit,
}

impl<'a> TryFrom<&'a str> for Card {
    type Error = CardError;

    fn try_from(text: &'a str) -> (r: Result<Card, CardError>) {
        Card::parse(text)
    }
}

impl<'a> vstd::std_specs::convert::TryFromSpecImpl<&'a str> for Card {
    open spec fn obeys_try_from_spec() -> bool {
        true
    }

    open spec fn try_from_spec(text: &'a str) -> Result<Card, CardError> {
        card_from_text(text@)
    }
}

/// Cards ordered from the highest rank value down (equal values in any order).
pub open spec fn is_descending(s: Seq<Card>) -> bool {
    forall|i: int, j: int| 0 <= i < j < s.len() ==> #[trigger] s[i].val >= #[trigger] s[j].val
}

/// The multiset of five cards.
pub open spec fn bag5(a: Card, b: Card, c: Card, d: Card, e: Card) -> Multiset<Card> {
    Multiset::empty().insert(a).insert(b).insert(c).insert(d).insert(e)
}

/// The multiset of a sequence of five cards.
pub proof fn lemma_five_to_multiset(s: Seq<Card>)
    requires
        s.len() == 5,
    ensures
        s.to_multiset() == bag5(s[0], s[1], s[2], s[3], s[4]),
{
    broadcast use vstd::seq_lib::group_to_multiset_ensures;

    let s0 = Seq::<Card>::empty();
    assert(s =~= s0.push(s[0]).push(s[1]).push(s[2]).push(s[3]).push(s[4]));
    assert(s0.to_multiset() =~= Multiset::empty());
}

/// The two cards, the one of higher rank value first; equal ones stay in their order.
fn order_pair(x: Card, y: Card) -> (r: (Card, Card))
    ensures
        x.val < y.val ==> r == (y, x),
        x.val >= y.val ==> r == (x, y),
{
    if x.val < y.val {
        (y, x)
    } else {
        (x, y)
    }
}

/// Cards `a` to `e` stand at the distinct positions `i` to `m` of `s`, and two of equal
/// rank value are in the order of their positions.
#[verifier::opaque]
spec fn placed(s: Seq<Card>, a: Card, b: Card, c: Card, d: Card, e: Card, i: int, j: int, k: int, l: int, m: int) -> bool {
    &&& s[i] == a && s[j] == b && s[k] == c && s[l] == d && s[m] == e
    &&& 0 <= i < 5 && 0 <= j < 5 && 0 <= k < 5 && 0 <= l < 5 && 0 <= m < 5
    &&& i != j && i != k && i != l && i != m && j != k && j != l && j != m && k != l && k != m && l != m
    &&& (a.val == b.val ==> i < j) && (a.val == c.val ==> i < k) && (a.val == d.val ==> i < l)
    &&& (a.val == e.val ==> i < m) && (b.val == c.val ==> j < k) && (b.val == d.val ==> j < l)
    &&& (b.val == e.val ==> j < m) && (c.val == d.val ==> k < l) && (c.val == e.val ==> k < m)
    &&& (d.val == e.val ==> l < m)
}

/// `t` is `s` rearranged by `p` (position `k` of `t` holds card `p[k]` of `s`), and
/// cards of equal rank value keep their relative order.
pub open spec fn stable_arrangement(s: Seq<Card>, t: Seq<Card>, p: Seq<int>) -> bool {
    &&& s.len() == t.len() == p.len()
    &&& forall|k: int| 0 <= k < p.len() ==> 0 <= #[trigger] p[k] < s.len() && t[k] == s[p[k]]
    &&& forall|k: int, l: int| 0 <= k < l < p.len() ==> #[trigger] p[k] != #[trigger] p[l]
    &&& forall|k: int, l: int| 0 <= k < l < p.len() && #[trigger] t[k].val == #[trigger] t[l].val ==> p[k] < p[l]
}

proof fn lemma_placed_swap(
    s: Seq<Card>,
    a: Card,
    b: Card,
    c: Card,
    d: Card,
    e: Card,
    i: int,
    j: int,
    k: int,
    l: int,
    m: int,
)
    requires
        placed(s, a, b, c, d, e, i, j, k, l, m),
    ensures
        a.val < b.val ==> placed(s, b, a, c, d, e, j, i, k, l, m),
        b.val < c.val ==> placed(s, a, c, b, d, e, i, k, j, l, m),
        c.val < d.val ==> placed(s, a, b, d, c, e, i, j, l, k, m),
        d.val < e.val ==> placed(s, a, b, c, e, d, i, j, k, m, l),
{
    reveal(placed);
}

proof fn lemma_placed_start(s: Seq<Card>)
    requires
        s.len() == 5,
    ensures
        placed(s, s[0], s[1], s[2], s[3], s[4], 0, 1, 2, 3, 4),
{
    reveal(placed);
}

proof fn lemma_placed_arrangement(
    s: Seq<Card>,
    a: Card,
    b: Card,
    c: Card,
    d: Card,
    e: Card,
    i: int,
    j: int,
    k: int,
    l: int,
    m: int,
)
    requires
        s.len() == 5,
        placed(s, a, b, c, d, e, i, j, k, l, m),
    ensures
        stable_arrangement(s, seq![a, b, c, d, e], seq![i, j, k, l, m]),
{
    reveal(placed);
    let t = seq![a, b, c, d, e];
    let p = seq![i, j, k, l, m];
    assert forall|x: int, y: int| 0 <= x < y < p.len() && #[trigger] t[x].val == #[trigger] t[y].val implies p[x] < p[y] by {
    }
}

/// The five cards in descending order of rank value, cards of equal value in their
/// order: insertion by exchanges of neighbours.
fn sort5(a0: Card, b0: Card, c0: Card, d0: Card, e0: Card) -> (r: (Card, Card, Card, Card, Card, Ghost<Seq<int>>))
    ensures
        r.0.val >= r.1.val >= r.2.val >= r.3.val >= r.4.val,
        bag5(r.0, r.1, r.2, r.3, r.4) == bag5(a0, b0, c0, d0, e0),
        stable_arrangement(seq![a0, b0, c0, d0, e0], seq![r.0, r.1, r.2, r.3, r.4], r.5@),
{
    let ghost s = seq![a0, b0, c0, d0, e0];
    let ghost (ia0, ib0, ic0, id0, ie0) = (0int, 1int, 2int, 3int, 4int);
    proof {
        lemma_placed_start(s);
        assert(s[0] == a0 && s[1] == b0 && s[2] == c0 && s[3] == d0 && s[4] == e0);
    }
    let (a1, b1) = order_pair(a0, b0);
    let ghost (ia1, ib1) = if a0.val < b0.val { (ib0, ia0) } else { (ia0, ib0) };
    proof {
        lemma_bag_swaps(a0, b0, c0, d0, e0);
        lemma_placed_swap(s, a0, b0, c0, d0, e0, ia0, ib0, ic0, id0, ie0);
    }
    let (b2, c1) = order_pair(b1, c0);
    let ghost (ib2, ic1) = if b1.val < c0.val { (ic0, ib1) } else { (ib1, ic0) };
    proof {
        lemma_bag_swaps(a1, b1, c0, d0, e0);
        lemma_placed_swap(s, a1, b1, c0, d0, e0, ia1, ib1, ic0, id0, ie0);
    }
    let (a2, b3) = order_pair(a1, b2);
    let ghost (ia2, ib3) = if a1.val < b2.val { (ib2, ia1) } else { (ia1, ib2) };
    proof {
        lemma_bag_swaps(a1, b2, c1, d0, e0);
        lemma_placed_swap(s, a1, b2, c1, d0, e0, ia1, ib2, ic1, id0, ie0);
    }
    let (c2, d1) = order_pair(c1, d0);
    let ghost (ic2, id1) = if c1.val < d0.val { (id0, ic1) } else { (ic1, id0) };
    proof {
        lemma_bag_swaps(a2, b3, c1, d0, e0);
        lemma_placed_swap(s, a2, b3, c1, d0, e0, ia2, ib3, ic1, id0, ie0);
    }
    let (b4, c3) = order_pair(b3, c2);
    let ghost (ib4, ic3) = if b3.val < c2.val { (ic2, ib3) } else { (ib3, ic2) };
    proof {
        lemma_bag_swaps(a2, b3, c2, d1, e0);
        lemma_placed_swap(s, a2, b3, c2, d1, e0, ia2, ib3, ic2, id1, ie0);
    }
    let (a3, b5) = order_pair(a2, b4);
    let ghost (ia3, ib5) = if a2.val < b4.val { (ib4, ia2) } else { (ia2, ib4) };
    proof {
        lemma_bag_swaps(a2, b4, c3, d1, e0);
        lemma_placed_swap(s, a2, b4, c3, d1, e0, ia2, ib4, ic3, id1, ie0);
    }
    let (d2, e1) = order_pair(d1, e0);
    let ghost (id2, ie1) = if d1.val < e0.val { (ie0, id1) } else { (id1, ie0) };
    proof {
        lemma_bag_swaps(a3, b5, c3, d1, e0);
        lemma_placed_swap(s, a3, b5, c3, d1, e0, ia3, ib5, ic3, id1, ie0);
    }
    let (c4, d3) = order_pair(c3, d2);
    let ghost (ic4, id3) = if c3.val < d2.val { (id2, ic3) } else { (ic3, id2) };
    proof {
        lemma_bag_swaps(a3, b5, c3, d2, e1);
        lemma_placed_swap(s, a3, b5, c3, d2, e1, ia3, ib5, ic3, id2, ie1);
    }
    let (b6, c5) = order_pair(b5, c4);
    let ghost (ib6, ic5) = if b5.val < c4.val { (ic4, ib5) } else { (ib5, ic4) };
    proof {
        lemma_bag_swaps(a3, b5, c4, d3, e1);
        lemma_placed_swap(s, a3, b5, c4, d3, e1, ia3, ib5, ic4, id3, ie1);
    }
    let (a4, b7) = order_pair(a3, b6);
    let ghost (ia4, ib7) = if a3.val < b6.val { (ib6, ia3) } else { (ia3, ib6) };
    proof {
        lemma_bag_swaps(a3, b6, c5, d3, e1);
        lemma_placed_swap(s, a3, b6, c5, d3, e1, ia3, ib6, ic5, id3, ie1);
    }
    proof {
        lemma_placed_arrangement(s, a4, b7, c5, d3, e1, ia4, ib7, ic5, id3, ie1);
    }
    let ghost p = seq![ia4, ib7, ic5, id3, ie1];
    (a4, b7, c5, d3, e1, Ghost(p))
}

/// Exchanging two neighbours keeps the multiset of five cards.
proof fn lemma_bag_swaps(a: Card, b: Card, c: Card, d: Card, e: Card)
    ensures
        bag5(b, a, c, d, e) == bag5(a, b, c, d, e),
        bag5(a, c, b, d, e) == bag5(a, b, c, d, e),
        bag5(a, b, d, c, e) == bag5(a, b, c, d, e),
        bag5(a, b, c, e, d) == bag5(a, b, c, d, e),
{
    assert(bag5(b, a, c, d, e) =~= bag5(a, b, c, d, e));
    assert(bag5(a, c, b, d, e) =~= bag5(a, b, c, d, e));
    assert(bag5(a, b, d, c, e) =~= bag5(a, b, c, d, e));
    assert(bag5(a, b, c, e, d) =~= bag5(a, b, c, d, e));
}

/// Five cards.
#[derive(Debug, Clone)]
pub struct Hand {
    hand: [Card; 5],
}

impl View for Hand {
    type V = Seq<Card>;

    closed spec fn view(&self) -> Seq<Card> {
        self.hand@
    }
}

impl Hand {
    /// Puts the cards in descending order of rank value.
    /// Puts the cards in descending order of rank value; cards of equal value keep their
    /// order.
    pub fn sort(&mut self)
        ensures
            final(self)@.len() == 5,
            final(self)@.to_multiset() == old(self)@.to_multiset(),
            is_descending(final(self)@),
            exists|p: Seq<int>| stable_arrangement(old(self)@, final(self)@, p),
    {
        proof {
            lemma_five_to_multiset(self.hand@);
        }
        let ghost before = self.hand@;
        let (a, b, c, d, e, Ghost(p)) = sort5(self.hand[0], self.hand[1], self.hand[2], self.hand[3], self.hand[4]);
        self.hand = [a, b, c, d, e];
        proof {
            lemma_five_to_multiset(self.hand@);
            assert(before =~= seq![before[0], before[1], before[2], before[3], before[4]]);
            assert(self.hand@ =~= seq![a, b, c, d, e]);
            assert(stable_arrangement(before, self.hand@, p));
            assert(old(self)@ == before);
            assert(self@ == self.hand@);
            assert(exists|q: Seq<int>| stable_arrangement(old(self)@, self@, q));
        }
    }

    /// A hand has five cards.
    pub proof fn lemma_five(&self)
        ensures
            self@.len() == 5,
    {
    }

    /// The five cards.
    pub fn get_hand_slice(&self) -> (r: &[Card; 5])
        ensures
            r@ == self@,
            r@.len() == 5,
    {
        &self.hand
    }

    /// The hand of these five cards.
    pub fn new(hand: [Card; 5]) -> (r: Hand)
        ensures
            r@ == hand@,
            r@.len() == 5,
    {
        Hand { hand }
    }
}

/// The fifty-two cards of a deck in a fixed order: suits in declaration order, and
/// within a suit the rank values from 2 to 14.
pub open spec fn standard_deck() -> Seq<Card> {
    Seq::new(52, |i: int| Card { val: (i % 13 + 2) as u8, suit: Suit::from_index((i / 13) as nat) })
}

/// Relies on rand's `SliceRandom::shuffle`, with the thread-local generator: it only swaps
/// elements of the slice, so the same cards remain, in an order left to chance.
#[verifier::external_body]
fn shuffle_cards(cards: &mut Vec<Card>)
    ensures
        final(cards)@.to_multiset() == old(cards)@.to_multiset(),
        final(cards)@.len() == old(cards)@.len(),
{
    cards.shuffle(&mut rand::thread_rng());
}

/// A deck of fifty-two cards, dealt five at a time from the front.
#[derive(Debug, Clone)]
pub struct Deck {
    deck: Vec<Card>,
    it: usize,
}

impl Deck {
    /// The cards in their order in the deck, dealt ones included.
    pub closed spec fn cards(&self) -> Seq<Card> {
        self.deck@
    }

    /// How many cards have been dealt.
    pub closed spec fn dealt(&self) -> nat {
        self.it as nat
    }

    /// A deck holds every card of `standard_deck` once.
    pub open spec fn wf(&self) -> bool {
        &&& self.cards().len() == 52
        &&& self.dealt() <= 52
        &&& self.cards().to_multiset() == standard_deck().to_multiset()
    }

    /// A full deck in an order left to chance, none of it dealt.
    pub fn create_shuffled_deck() -> (d: Deck)
        ensures
            d.wf(),
            d.dealt() == 0,
    {
        let suits: [Suit; 4] = [Suit::Hearts, Suit::Diamonds, Suit::Spades, Suit::Clubs];
        let mut deck: Vec<Card> = Vec::new();
        let mut s: usize = 0;
        while s < 4
            invariant
                s <= 4,
                suits@ == seq![Suit::Hearts, Suit::Diamonds, Suit::Spades, Suit::Clubs],
                deck@ == standard_deck().take(13 * s as int),
            decreases 4 - s,
        {
            let mut val: u8 = 2;
            while val <= 14
                invariant
                    s < 4,
                    2 <= val <= 15,
                    suits@ == seq![Suit::Hearts, Suit::Diamonds, Suit::Spades, Suit::Clubs],
                    deck@ == standard_deck().take(13 * s + val - 2),
                decreases 15 - val,
            {
                let card = Card::new(val, suits[s]);
                proof {
                    let k = 13 * s + val - 2;
                    assert(standard_deck()[k] == card);
                    assert(standard_deck().take(k + 1) =~= standard_deck().take(k).push(card));
                }
                deck.push(card);
                val = val + 1;
            }
            s = s + 1;
        }
        assert(deck@ =~= standard_deck());
        shuffle_cards(&mut deck);
        Deck { deck, it: 0 }
    }

    /// The next five cards, or `None` when fewer than five are left.
    pub fn hand(&mut self) -> (r: Option<Hand>)
        requires
            old(self).wf(),
        ensures
            final(self).wf(),
            final(self).cards() == old(self).cards(),
            old(self).dealt() + 5 <= 52 ==> {
                &&& r matches Some(h)
                &&& h@ == old(self).cards().subrange(old(self).dealt() as int, old(self).dealt() + 5int)
                &&& final(self).dealt() == old(self).dealt() + 5
            },
            old(self).dealt() + 5 > 52 ==> r is None && final(self).dealt() == old(self).dealt(),
    {
        if self.it > 47 {
            return None;
        }
        let i = self.it;
        let hand = Hand::new([self.deck[i], self.deck[i + 1], self.deck[i + 2], self.deck[i + 3], self.deck[i + 4]]);
        assert(hand@ =~= self.deck@.subrange(i as int, i + 5));
        self.it = i + 5;
        Some(hand)
    }

    /// The cards in their order in the deck, dealt ones included.
    pub fn get_cards(&self) -> (r: &Vec<Card>)
        ensures
            r@ == self.cards(),
    {
        &self.deck
    }
}

} // verus!
