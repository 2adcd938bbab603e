use pokerust::card::{Card, Hand, Suit};
use pokerust::fast_evaluator::{deck_card, Category, FastEvaluator};
use pokerust::match_evaluator::MatchHandEvaluator;

fn fcard(text: &str) -> Card {
    Card::try_from(text).unwrap()
}

fn strength_of(t: [&str; 5]) -> u16 {
    let p: Vec<u32> = t.iter().map(|s| FastEvaluator::encode(&fcard(s))).collect();
    FastEvaluator::eval_5cards_fast(p[0], p[1], p[2], p[3], p[4])
}

fn for_every_hand(mut f: impl FnMut([usize; 5])) {
    for i in 0..48 {
        for j in (i + 1)..49 {
            for k in (j + 1)..50 {
                for m in (k + 1)..51 {
                    for n in (m + 1)..52 {
                        f([i, j, k, m, n]);
                    }
                }
            }
        }
    }
}

fn band(c: Category) -> usize {
    match c {
        Category::RoyalFlush => 0,
        Category::StraightFlush => 1,
        Category::FourOfAKind => 2,
        Category::FullHouse => 3,
        Category::Flush => 4,
        Category::Straight => 5,
        Category::ThreeOfAKind => 6,
        Category::TwoPair => 7,
        Category::OnePair => 8,
        Category::HighCard => 9,
    }
}

#[test]
fn both_evaluators_agree_on_every_hand() {
    let mut hands: u64 = 0;
    for_every_hand(|h| {
        let v = FastEvaluator::eval_5cards(h[0], h[1], h[2], h[3], h[4]);
        let fast = FastEvaluator::rank_name(v as u64);
        let mut hand = Hand::new([deck_card(h[0]), deck_card(h[1]), deck_card(h[2]), deck_card(h[3]), deck_card(h[4])]);
        let slow = MatchHandEvaluator::match_eval(&mut hand).category();
        assert_eq!(slow, Some(fast), "cards {:?}", h);
        hands += 1;
    });
    assert_eq!(hands, 2_598_960);
}

#[test]
fn exactly_7462_strength_values_occur() {
    let mut seen = vec![false; 7463];
    for_every_hand(|h| {
        let v = FastEvaluator::eval_5cards(h[0], h[1], h[2], h[3], h[4]) as usize;
        assert!((1..=7462).contains(&v));
        seen[v] = true;
    });
    assert_eq!(seen.iter().filter(|b| **b).count(), 7462);
}

#[test]
fn category_populations_match_combinatorics() {
    let mut counts = [0u64; 10];
    for_every_hand(|h| {
        let v = FastEvaluator::eval_5cards(h[0], h[1], h[2], h[3], h[4]);
        counts[band(FastEvaluator::rank_name(v as u64))] += 1;
    });
    assert_eq!(counts, [4, 36, 624, 3744, 5108, 10200, 54912, 123552, 1098240, 1302540]);
    assert_eq!(counts.iter().sum::<u64>(), 2_598_960);
}

#[test]
fn spec_scenarios_by_strength() {
    assert_eq!(strength_of(["Ad", "Kd", "Qd", "Jd", "10d"]), 1);
    assert_eq!(strength_of(["5c", "4h", "3d", "2s", "Ad"]), 1609);
    assert_eq!(strength_of(["Kd", "Kh", "Kc", "8s", "8d"]), 184);
    assert_eq!(strength_of(["9d", "5h", "5c", "6s", "6d"]), 3221);
    assert_eq!(FastEvaluator::rank_name(1609), Category::Straight);
    assert_eq!(FastEvaluator::rank_name(184), Category::FullHouse);
    assert_eq!(FastEvaluator::rank_name(3221), Category::TwoPair);
}

#[test]
fn extreme_strength_values() {
    assert_eq!(strength_of(["5d", "4d", "3d", "2d", "Ad"]), 10);
    assert_eq!(strength_of(["7h", "5d", "4c", "3s", "2h"]), 7462);
    assert_eq!(strength_of(["Ah", "Kd", "Qc", "Js", "10h"]), 1600);
    assert_eq!(strength_of(["Ah", "Ad", "Ac", "As", "Kd"]), 11);
}

#[test]
fn rank_name_band_edges() {
    let edges: [(u64, Category); 19] = [
        (1, Category::RoyalFlush),
        (2, Category::StraightFlush),
        (10, Category::StraightFlush),
        (11, Category::FourOfAKind),
        (166, Category::FourOfAKind),
        (167, Category::FullHouse),
        (322, Category::FullHouse),
        (323, Category::Flush),
        (1599, Category::Flush),
        (1600, Category::Straight),
        (1609, Category::Straight),
        (1610, Category::ThreeOfAKind),
        (2467, Category::ThreeOfAKind),
        (2468, Category::TwoPair),
        (3325, Category::TwoPair),
        (3326, Category::OnePair),
        (6185, Category::OnePair),
        (6186, Category::HighCard),
        (7462, Category::HighCard),
    ];
    for (v, c) in edges.iter() {
        assert_eq!(FastEvaluator::rank_name(*v), *c, "value {}", v);
    }
}

#[test]
fn packed_card_layout() {
    assert_eq!(FastEvaluator::encode(&Card::new(13, Suit::Diamonds)), 0x0800_2b25);
    assert_eq!(FastEvaluator::encode(&Card::new(2, Suit::Hearts)), 0x0001_1002);
    assert_eq!(FastEvaluator::encode(&Card::new(14, Suit::Clubs)), 0x1000_8c29);
}

#[test]
fn deck_positions() {
    let c = deck_card(0);
    assert_eq!((c.val, c.suit), (2, Suit::Hearts));
    let c = deck_card(25);
    assert_eq!((c.val, c.suit), (14, Suit::Diamonds));
    let c = deck_card(51);
    assert_eq!((c.val, c.suit), (14, Suit::Clubs));
}

#[test]
fn equal_strength_gives_equal_category() {
    let a = strength_of(["Kd", "Kh", "2c", "Js", "10d"]);
    let b = strength_of(["Ks", "Kc", "2d", "Jh", "10c"]);
    assert_eq!(a, b);
    assert_eq!(FastEvaluator::rank_name(a as u64), FastEvaluator::rank_name(b as u64));
    let mut ha = Hand::new([fcard("Kd"), fcard("Kh"), fcard("2c"), fcard("Js"), fcard("10d")]);
    let mut hb = Hand::new([fcard("Ks"), fcard("Kc"), fcard("2d"), fcard("Jh"), fcard("10c")]);
    let ra = MatchHandEvaluator::match_eval(&mut ha);
    let rb = MatchHandEvaluator::match_eval(&mut hb);
    assert_eq!(ra.partial_cmp(&rb), Some(std::cmp::Ordering::Equal));
}
