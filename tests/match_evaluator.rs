use pokerust::card::{Card, Hand, Suit};
use pokerust::match_evaluator::{MatchHandEvaluator, Rank};

fn mcard(text: &str) -> Card {
    match Card::try_from(text) {
        Ok(c) => c,
        Err(e) => panic!("{:?}", e),
    }
}

fn mhand(t: [&str; 5]) -> Hand {
    Hand::new([mcard(t[0]), mcard(t[1]), mcard(t[2]), mcard(t[3]), mcard(t[4])])
}

fn assert_rank_of(mut hand: Hand, rank: Rank) {
    assert_eq!(MatchHandEvaluator::match_eval(&mut hand), rank);
}

#[test]
fn rank_royal_flush() {
    assert_rank_of(mhand(["Ad", "Kd", "Qd", "Jd", "10d"]), Rank::RoyalFlush);
    assert_rank_of(mhand(["Ah", "Kh", "Qh", "Jh", "10h"]), Rank::RoyalFlush);
    assert_rank_of(mhand(["Ac", "Kc", "Qc", "Jc", "10c"]), Rank::RoyalFlush);
    assert_rank_of(mhand(["As", "Ks", "Qs", "Js", "10s"]), Rank::RoyalFlush);
}

#[test]
fn rank_straight_flush() {
    assert_rank_of(mhand(["5d", "4d", "3d", "2d", "Ad"]), Rank::StraightFlush);
    assert_rank_of(mhand(["10h", "9h", "8h", "7h", "6h"]), Rank::StraightFlush);
    assert_rank_of(mhand(["Ks", "Qs", "Js", "10s", "9s"]), Rank::StraightFlush);
}

#[test]
fn rank_four_of_a_kind() {
    assert_rank_of(mhand(["Kd", "Kh", "Kc", "Ks", "Qd"]), Rank::FourOfAKind);
    assert_rank_of(mhand(["Kd", "6h", "6c", "6s", "6d"]), Rank::FourOfAKind);
}

#[test]
fn rank_full_house() {
    assert_rank_of(mhand(["Kd", "Kh", "Kc", "8s", "8d"]), Rank::FullHouse);
    assert_rank_of(mhand(["2d", "2h", "Qc", "Qs", "Qd"]), Rank::FullHouse);
}

#[test]
fn rank_3_of_a_kind() {
    // Three of a kind at positions [0,1,2] (after sorting)
    assert_rank_of(mhand(["Kd", "Kh", "Kc", "10s", "8d"]), Rank::ThreeOfAKind);
    // Three of a kind at positions [2,3,4] (after sorting)
    assert_rank_of(mhand(["2d", "Jh", "Qc", "Qs", "Qd"]), Rank::ThreeOfAKind);
    // Three of a kind at positions [1,2,3] (middle position - edge case)
    assert_rank_of(mhand(["Ah", "Jd", "Jh", "Jc", "9s"]), Rank::ThreeOfAKind);
}

#[test]
fn rank_two_pairs() {
    // Two pairs at positions [0,1] and [2,3]
    assert_rank_of(mhand(["Kd", "Kh", "Jc", "Js", "10d"]), Rank::TwoPair);
    // Two pairs at positions [1,2] and [3,4]
    assert_rank_of(mhand(["9d", "5h", "5c", "6s", "6d"]), Rank::TwoPair);
    // Two pairs at positions [0,1] and [3,4] (edge case)
    assert_rank_of(mhand(["Kd", "Kh", "Jc", "10s", "10d"]), Rank::TwoPair);
}

#[test]
fn rank_one_pairs() {
    assert_rank_of(mhand(["Kd", "Kh", "2c", "Js", "10d"]), Rank::OnePair);
    assert_rank_of(mhand(["9d", "5h", "5c", "3s", "6d"]), Rank::OnePair);
}

#[test]
fn rank_flush() {
    // All hearts, non-sequential
    assert_rank_of(mhand(["Kh", "Jh", "9h", "7h", "3h"]), Rank::Flush);
    // All diamonds, non-sequential
    assert_rank_of(mhand(["Ad", "Qd", "10d", "6d", "2d"]), Rank::Flush);
    // All spades, non-sequential
    assert_rank_of(mhand(["Js", "10s", "8s", "5s", "4s"]), Rank::Flush);
    // All clubs, non-sequential
    assert_rank_of(mhand(["Qc", "9c", "7c", "6c", "3c"]), Rank::Flush);
}

#[test]
fn rank_straight() {
    // High straight (mixed suits)
    assert_rank_of(mhand(["Ah", "Kd", "Qc", "Js", "10h"]), Rank::Straight);
    // Mid-range straight (mixed suits)
    assert_rank_of(mhand(["9d", "8h", "7c", "6s", "5d"]), Rank::Straight);
    // Low straight with Ace as 1 (wheel) - mixed suits
    assert_rank_of(mhand(["5c", "4h", "3d", "2s", "Ah"]), Rank::Straight);
    // Another mid straight
    assert_rank_of(mhand(["7h", "6d", "5c", "4s", "3h"]), Rank::Straight);
    // King-high straight
    assert_rank_of(mhand(["Kd", "Qh", "Jc", "10s", "9d"]), Rank::Straight);
}

#[test]
fn rank_high_card() {
    // Ace high, no pairs or sequences
    assert_rank_of(mhand(["Ah", "Kd", "Qc", "Js", "9h"]), Rank::HighCard(mcard("Ah")));
    // King high, no pairs or sequences
    assert_rank_of(mhand(["Kh", "Jd", "9c", "7s", "5h"]), Rank::HighCard(mcard("Kh")));
    // Queen high, no pairs or sequences
    assert_rank_of(mhand(["Qd", "10h", "8c", "6s", "3h"]), Rank::HighCard(mcard("Qd")));
    // Random non-matching cards
    assert_rank_of(mhand(["Jc", "9h", "7d", "5s", "2h"]), Rank::HighCard(mcard("Jc")));
}

#[test]
fn rank_one_pair_all_positions() {
    // Pair at the beginning (positions 0,1)
    assert_rank_of(mhand(["Kd", "Kh", "2c", "Js", "10d"]), Rank::OnePair);
    // Pair at positions 1,2
    assert_rank_of(mhand(["Ah", "Qd", "Qh", "Jc", "9s"]), Rank::OnePair);
    // Pair at positions 2,3
    assert_rank_of(mhand(["Ah", "Kd", "10h", "10c", "6s"]), Rank::OnePair);
    // Pair at the end (positions 3,4)
    assert_rank_of(mhand(["9d", "5h", "5c", "3s", "6d"]), Rank::OnePair);
    // Low pair (2s)
    assert_rank_of(mhand(["2h", "2d", "Ac", "Ks", "Qh"]), Rank::OnePair);
}

#[test]
fn rank_four_of_a_kind_all_positions() {
    // Four at the beginning (positions 0,1,2,3)
    assert_rank_of(mhand(["Kd", "Kh", "Kc", "Ks", "Qd"]), Rank::FourOfAKind);
    // Four at the end (positions 1,2,3,4)
    assert_rank_of(mhand(["Kd", "6h", "6c", "6s", "6d"]), Rank::FourOfAKind);
    // Four Aces
    assert_rank_of(mhand(["Ad", "Ah", "Ac", "As", "Kd"]), Rank::FourOfAKind);
    // Four 2s (lowest)
    assert_rank_of(mhand(["2d", "2h", "2c", "2s", "3d"]), Rank::FourOfAKind);
}

#[test]
fn rank_full_house_variations() {
    // Kings full of 8s (three Kings, two 8s)
    assert_rank_of(mhand(["Kd", "Kh", "Kc", "8s", "8d"]), Rank::FullHouse);
    // Queens full of 2s (three Queens, two 2s)
    assert_rank_of(mhand(["2d", "2h", "Qc", "Qs", "Qd"]), Rank::FullHouse);
    // Aces full of Kings
    assert_rank_of(mhand(["Ad", "Ah", "Ac", "Ks", "Kd"]), Rank::FullHouse);
    // 3s full of Aces (three 3s, two Aces)
    assert_rank_of(mhand(["3d", "3h", "3c", "As", "Ad"]), Rank::FullHouse);
}

#[test]
fn rank_straight_flush_variations() {
    // Ace-low straight flush (wheel)
    assert_rank_of(mhand(["5d", "4d", "3d", "2d", "Ad"]), Rank::StraightFlush);
    // Mid-range straight flush
    assert_rank_of(mhand(["10h", "9h", "8h", "7h", "6h"]), Rank::StraightFlush);
    // King-high straight flush
    assert_rank_of(mhand(["Ks", "Qs", "Js", "10s", "9s"]), Rank::StraightFlush);
    // Low straight flush
    assert_rank_of(mhand(["6c", "5c", "4c", "3c", "2c"]), Rank::StraightFlush);
}

#[test]
fn rank_seq() {
    assert_eq!(MatchHandEvaluator::seq(14, 13, 12, 11, 10), true);
    assert_eq!(MatchHandEvaluator::seq(13, 14, 12, 11, 5), false);
    assert_eq!(MatchHandEvaluator::seq(9, 8, 7, 6, 5), true);
    assert_eq!(MatchHandEvaluator::seq(5, 4, 3, 2, 1), true);
    assert_eq!(MatchHandEvaluator::seq(10, 9, 8, 7, 5), false);
}

#[test]
fn rank_comparison_order() {
    // Test that hand rankings compare correctly using derived PartialOrd
    // Note: The enum is declared from best to worst, so better hands are "less than" in comparison
    // Royal Flush < Straight Flush (RoyalFlush is better, declared first)
    assert!(Rank::RoyalFlush < Rank::StraightFlush);
    // Straight Flush < Four of a Kind
    assert!(Rank::StraightFlush < Rank::FourOfAKind);
    // Four of a Kind < Full House
    assert!(Rank::FourOfAKind < Rank::FullHouse);
    // Full House < Flush
    assert!(Rank::FullHouse < Rank::Flush);
    // Flush < Straight
    assert!(Rank::Flush < Rank::Straight);
    // Straight < Three of a Kind
    assert!(Rank::Straight < Rank::ThreeOfAKind);
    // Three of a Kind < Two Pair
    assert!(Rank::ThreeOfAKind < Rank::TwoPair);
    // Two Pair < One Pair
    assert!(Rank::TwoPair < Rank::OnePair);
    // One Pair < High Card (OnePair is better, declared earlier)
    assert!(Rank::OnePair < Rank::HighCard(mcard("Ah")));
}

#[test]
fn rank_not_flush_or_straight() {
    // Should be three of a kind, not flush (different suits)
    assert_rank_of(mhand(["Kd", "Kh", "Kc", "10s", "8d"]), Rank::ThreeOfAKind);
    // Should be two pair, not straight (values: 13,13,11,11,10)
    assert_rank_of(mhand(["Kd", "Kh", "Jc", "Js", "10d"]), Rank::TwoPair);
    // Should be high card, almost a straight but missing one
    assert_rank_of(mhand(["Kh", "Qd", "Jc", "10s", "8h"]), Rank::HighCard(mcard("Kh")));
    // Should be high card, same suit but not sequential
    assert_rank_of(mhand(["Kh", "Qh", "Jh", "9h", "7h"]), Rank::Flush);
}

#[test]
fn rank_edge_cases() {
    // Test with all Aces and Kings (four Aces, one King)
    assert_rank_of(mhand(["Ad", "Ah", "Ac", "As", "Kd"]), Rank::FourOfAKind);
    // Test with low cards
    assert_rank_of(mhand(["5d", "4h", "3c", "3s", "2d"]), Rank::OnePair);
    // Test near-straight (missing middle card)
    assert_rank_of(mhand(["9d", "8h", "6c", "5s", "4d"]), Rank::HighCard(mcard("9d")));
    // Test wheel straight with mixed suits
    assert_rank_of(mhand(["5c", "4h", "3d", "2s", "Ah"]), Rank::Straight);
}

#[test]
fn spec_scenarios() {
    assert_rank_of(mhand(["Ad", "Kd", "Qd", "Jd", "10d"]), Rank::RoyalFlush);
    assert_rank_of(mhand(["5c", "4h", "3d", "2s", "Ad"]), Rank::Straight);
    assert_rank_of(mhand(["Kd", "Kh", "Kc", "8s", "8d"]), Rank::FullHouse);
    assert_rank_of(mhand(["9d", "5h", "5c", "6s", "6d"]), Rank::TwoPair);
}

#[test]
fn high_card_carries_the_card_itself() {
    let mut h = mhand(["3c", "Jd", "9s", "Qh", "5c"]);
    match MatchHandEvaluator::match_eval(&mut h) {
        Rank::HighCard(c) => {
            assert_eq!(c.val, 12);
            assert_eq!(c.suit, Suit::Hearts);
        }
        other => panic!("expected a high card, got {:?}", other),
    }
}

#[test]
fn match_eval_leaves_the_hand_sorted() {
    let mut h = mhand(["3c", "Jd", "9s", "Qh", "3h"]);
    assert_eq!(MatchHandEvaluator::match_eval(&mut h), Rank::OnePair);
    let vals: Vec<u8> = h.get_hand_slice().iter().map(|c| c.val).collect();
    assert_eq!(vals, vec![12, 11, 9, 3, 3]);
}

#[test]
fn order_of_cards_does_not_change_the_rank() {
    let orders = [
        ["Kd", "Kh", "Kc", "8s", "8d"],
        ["8d", "Kc", "8s", "Kh", "Kd"],
        ["8s", "8d", "Kd", "Kh", "Kc"],
    ];
    for o in orders.iter() {
        assert_rank_of(mhand(*o), Rank::FullHouse);
    }
    assert_rank_of(mhand(["2s", "Ad", "4h", "3d", "5c"]), Rank::Straight);
    assert_rank_of(mhand(["3h", "5h", "Ah", "2h", "4h"]), Rank::StraightFlush);
}

#[test]
fn high_cards_order_by_their_card() {
    assert!(Rank::HighCard(mcard("Ah")) < Rank::HighCard(mcard("Kh")));
    assert!(Rank::HighCard(mcard("7c")) > Rank::HighCard(mcard("Jd")));
    assert!(Rank::HighCard(mcard("2c")) < Rank::Unranked);
    assert_eq!(Rank::HighCard(mcard("Qs")), Rank::HighCard(mcard("Qd")));
    assert_eq!(
        Rank::HighCard(mcard("Qs")).partial_cmp(&Rank::HighCard(mcard("Qd"))),
        Some(std::cmp::Ordering::Equal)
    );
    assert_ne!(Rank::Flush, Rank::Straight);
}

#[test]
fn equal_categories_compare_equal() {
    let mut a = mhand(["Kd", "Kh", "2c", "Js", "10d"]);
    let mut b = mhand(["9d", "5h", "5c", "3s", "6d"]);
    let ra = MatchHandEvaluator::match_eval(&mut a);
    let rb = MatchHandEvaluator::match_eval(&mut b);
    assert_eq!(ra.partial_cmp(&rb), Some(std::cmp::Ordering::Equal));
    assert_eq!(Rank::Flush.order(), 4);
    assert_eq!(Rank::Unranked.order(), 10);
}

#[test]
fn suits_and_seq_helpers() {
    assert!(MatchHandEvaluator::suits(&Suit::Clubs, &Suit::Clubs, &Suit::Clubs, &Suit::Clubs, &Suit::Clubs));
    assert!(!MatchHandEvaluator::suits(&Suit::Clubs, &Suit::Clubs, &Suit::Hearts, &Suit::Clubs, &Suit::Clubs));
    assert!(MatchHandEvaluator::seq(255, 254, 253, 252, 251));
    assert!(!MatchHandEvaluator::seq(0, 255, 254, 253, 252));
}
