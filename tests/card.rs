use pokerust::card::{Card, CardError, Deck, Hand, Suit};

fn card_of(text: &str) -> Card {
    match Card::try_from(text) {
        Ok(c) => c,
        Err(e) => panic!("{:?}", e),
    }
}

fn hand_of(t: [&str; 5]) -> Hand {
    Hand::new([card_of(t[0]), card_of(t[1]), card_of(t[2]), card_of(t[3]), card_of(t[4])])
}

#[test]
fn test_try_from_valid_card() {
    let card = card_of("Ad");
    assert_eq!(card.val, 14);
    assert_eq!(card.suit, Suit::Diamonds);

    assert_eq!(card_of("Ah"), Card::new(14, Suit::Hearts));
    assert_eq!(card_of("Kh"), Card::new(13, Suit::Hearts));
    assert_eq!(card_of("Qh"), Card::new(12, Suit::Hearts));
    assert_eq!(card_of("Jh"), Card::new(11, Suit::Hearts));
    assert_eq!(card_of("10h"), Card::new(10, Suit::Hearts));
    assert_eq!(card_of("9h"), Card::new(9, Suit::Hearts));
}

#[test]
fn test_try_from_valid_hand() {
    let hand = hand_of(["Ad", "Kd", "Qd", "Jd", "10d"]);
    assert_eq!(hand.get_hand_slice()[0], Card::new(14, Suit::Diamonds));
    assert_eq!(hand.get_hand_slice()[0].suit, Suit::Diamonds);
}

#[test]
fn parse_ten_of_hearts() {
    let c = Card::parse("10h").unwrap();
    assert_eq!(c.val, 10);
    assert_eq!(c.suit, Suit::Hearts);
}

#[test]
fn parse_unknown_rank_is_invalid_value() {
    assert_eq!(Card::parse("Xx").unwrap_err(), CardError::InvalidValue);
    assert_eq!(Card::parse("1h").unwrap_err(), CardError::InvalidValue);
    assert_eq!(Card::parse("0h").unwrap_err(), CardError::InvalidValue);
    assert_eq!(Card::parse("ah").unwrap_err(), CardError::InvalidValue);
}

#[test]
fn parse_wrong_length_is_invalid_length() {
    assert_eq!(Card::parse("").unwrap_err(), CardError::InvalidLength);
    assert_eq!(Card::parse("A").unwrap_err(), CardError::InvalidLength);
    assert_eq!(Card::parse("10hh").unwrap_err(), CardError::InvalidLength);
    assert_eq!(Card::parse("Ahx").unwrap_err(), CardError::InvalidLength);
    assert_eq!(Card::parse("10").unwrap_err(), CardError::InvalidLength);
}

#[test]
fn parse_unknown_suit_is_invalid_suit() {
    assert_eq!(Card::parse("Ax").unwrap_err(), CardError::InvalidSuit);
    assert_eq!(Card::parse("10z").unwrap_err(), CardError::InvalidSuit);
    assert_eq!(Card::try_from("9q").unwrap_err(), CardError::InvalidSuit);
}

#[test]
fn parse_suit_letter_in_either_case() {
    assert_eq!(Card::parse("QS").unwrap().suit, Suit::Spades);
    assert_eq!(Card::parse("Qs").unwrap().suit, Suit::Spades);
    assert_eq!(Card::parse("2C").unwrap().suit, Suit::Clubs);
    assert_eq!(Card::parse("3D").unwrap().suit, Suit::Diamonds);
    assert_eq!(Card::parse("4H").unwrap().suit, Suit::Hearts);
}

#[test]
fn token_round_trip_for_every_card() {
    for suit in [Suit::Hearts, Suit::Diamonds, Suit::Spades, Suit::Clubs] {
        for val in 2u8..=14 {
            let c = Card::new(val, suit);
            let token = format!("{}{}", c.rank_symbol(), suit.letter());
            let back = Card::parse(&token).unwrap();
            assert_eq!(back.val, val);
            assert_eq!(back.suit, suit);
        }
    }
    assert_eq!(Card::new(10, Suit::Clubs).rank_symbol(), "10");
    assert_eq!(Card::new(14, Suit::Clubs).rank_symbol(), "A");
    assert_eq!(Suit::Diamonds.letter(), 'd');
}

#[test]
fn card_equality_is_by_rank_value() {
    assert_eq!(Card::new(12, Suit::Hearts), Card::new(12, Suit::Clubs));
    assert_ne!(Card::new(12, Suit::Hearts), Card::new(11, Suit::Hearts));
}

#[test]
fn sort_keeps_the_order_of_equal_ranks() {
    let mut h = hand_of(["2s", "Qd", "2h", "Qc", "2d"]);
    h.sort();
    let got: Vec<(u8, Suit)> = h.get_hand_slice().iter().map(|c| (c.val, c.suit)).collect();
    assert_eq!(
        got,
        vec![(12, Suit::Diamonds), (12, Suit::Clubs), (2, Suit::Spades), (2, Suit::Hearts), (2, Suit::Diamonds)]
    );
}

#[test]
fn cards_order_by_rank_value() {
    assert!(Card::new(14, Suit::Hearts) > Card::new(13, Suit::Spades));
    assert!(Card::new(2, Suit::Clubs) < Card::new(3, Suit::Clubs));
    assert_eq!(
        Card::new(9, Suit::Clubs).partial_cmp(&Card::new(9, Suit::Hearts)),
        Some(std::cmp::Ordering::Equal)
    );
}

#[test]
fn sort_puts_cards_in_descending_order() {
    let mut h = hand_of(["5c", "Kh", "2d", "Ks", "9h"]);
    h.sort();
    let vals: Vec<u8> = h.get_hand_slice().iter().map(|c| c.val).collect();
    assert_eq!(vals, vec![13, 13, 9, 5, 2]);
    let suits: Vec<Suit> = h.get_hand_slice().iter().map(|c| c.suit).collect();
    assert_eq!(suits[0], Suit::Hearts);
    assert_eq!(suits[1], Suit::Spades);
    assert_eq!(suits[2], Suit::Hearts);
    assert_eq!(suits[3], Suit::Clubs);
    assert_eq!(suits[4], Suit::Diamonds);
}

#[test]
fn shuffled_deck_holds_every_card_once() {
    let deck = Deck::create_shuffled_deck();
    let cards = deck.get_cards();
    assert_eq!(cards.len(), 52);
    let mut seen = [[false; 4]; 15];
    for c in cards.iter() {
        assert!((2..=14).contains(&c.val));
        let s = match c.suit {
            Suit::Hearts => 0,
            Suit::Diamonds => 1,
            Suit::Spades => 2,
            Suit::Clubs => 3,
        };
        assert!(!seen[c.val as usize][s]);
        seen[c.val as usize][s] = true;
    }
}

#[test]
fn shuffled_deck_is_not_in_standard_order() {
    let deck = Deck::create_shuffled_deck();
    let standard: Vec<(u8, Suit)> = [Suit::Hearts, Suit::Diamonds, Suit::Spades, Suit::Clubs]
        .iter()
        .flat_map(|s| (2u8..=14).map(move |v| (v, *s)))
        .collect();
    let got: Vec<(u8, Suit)> = deck.get_cards().iter().map(|c| (c.val, c.suit)).collect();
    assert_ne!(got, standard);
}

#[test]
fn deck_deals_ten_hands_then_none() {
    let mut deck = Deck::create_shuffled_deck();
    let cards: Vec<(u8, Suit)> = deck.get_cards().iter().map(|c| (c.val, c.suit)).collect();
    for k in 0..10 {
        let h = deck.hand().expect("five cards are left");
        let dealt: Vec<(u8, Suit)> = h.get_hand_slice().iter().map(|c| (c.val, c.suit)).collect();
        assert_eq!(dealt, cards[5 * k..5 * k + 5].to_vec());
    }
    assert!(deck.hand().is_none());
    assert!(deck.hand().is_none());
}
