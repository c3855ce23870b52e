use video_poker_core::{Card, Hand, Rank, Suit};

fn card(rank: Rank, suit: Suit) -> Card {
    Card { rank, suit }
}

#[test]
fn royal_flush() {
    assert_eq!(
        Hand::from_cards(&vec![
            card(Rank::Ace, Suit::Club),
            card(Rank::King, Suit::Club),
            card(Rank::Queen, Suit::Club),
            card(Rank::Jack, Suit::Club),
            card(Rank::Ten, Suit::Club),
        ]),
        Hand::RoyalFlush
    );
    assert_eq!(
        Hand::from_cards(&vec![
            card(Rank::Ace, Suit::Club),
            card(Rank::King, Suit::Club),
            card(Rank::Queen, Suit::Club),
            card(Rank::Jack, Suit::Club),
            card(Rank::Ace, Suit::Joker),
        ]),
        Hand::RoyalFlush
    );
    assert_eq!(
        Hand::from_cards(&vec![
            card(Rank::Ace, Suit::Club),
            card(Rank::King, Suit::Club),
            card(Rank::Queen, Suit::Club),
            card(Rank::Ace, Suit::Joker),
            card(Rank::Two, Suit::Joker),
        ]),
        Hand::RoyalFlush
    );
}

#[test]
fn straight_flush() {
    assert_eq!(
        Hand::from_cards(&vec![
            card(Rank::Nine, Suit::Heart),
            card(Rank::Eight, Suit::Heart),
            card(Rank::Seven, Suit::Heart),
            card(Rank::Six, Suit::Heart),
            card(Rank::Five, Suit::Heart),
        ]),
        Hand::StraightFlush
    );
    assert_eq!(
        Hand::from_cards(&vec![
            card(Rank::Nine, Suit::Heart),
            card(Rank::Eight, Suit::Heart),
            card(Rank::Seven, Suit::Heart),
            card(Rank::Six, Suit::Heart),
            card(Rank::Ace, Suit::Joker),
        ]),
        Hand::StraightFlush
    );
    assert_eq!(
        Hand::from_cards(&vec![
            card(Rank::Nine, Suit::Heart),
            card(Rank::Eight, Suit::Heart),
            card(Rank::Seven, Suit::Heart),
            card(Rank::Ace, Suit::Joker),
            card(Rank::Two, Suit::Joker),
        ]),
        Hand::StraightFlush
    );
}

#[test]
fn five_of_a_kind() {
    assert_eq!(
        Hand::from_cards(&vec![
            card(Rank::Ace, Suit::Club),
            card(Rank::Ace, Suit::Heart),
            card(Rank::Ace, Suit::Diamond),
            card(Rank::Ace, Suit::Spade),
            card(Rank::Ace, Suit::Joker),
        ]),
        Hand::FiveOfAKind
    );
    assert_eq!(
        Hand::from_cards(&vec![
            card(Rank::King, Suit::Club),
            card(Rank::King, Suit::Heart),
            card(Rank::King, Suit::Diamond),
            card(Rank::Ace, Suit::Joker),
            card(Rank::Two, Suit::Joker),
        ]),
        Hand::FiveOfAKind
    );
}

#[test]
fn four_of_a_kind() {
    assert_eq!(
        Hand::from_cards(&vec![
            card(Rank::Seven, Suit::Club),
            card(Rank::Seven, Suit::Heart),
            card(Rank::Seven, Suit::Diamond),
            card(Rank::Seven, Suit::Spade),
            card(Rank::Two, Suit::Club),
        ]),
        Hand::FourOfAKind
    );
    assert_eq!(
        Hand::from_cards(&vec![
            card(Rank::Seven, Suit::Club),
            card(Rank::Seven, Suit::Heart),
            card(Rank::Seven, Suit::Diamond),
            card(Rank::Two, Suit::Spade),
            card(Rank::Ace, Suit::Joker),
        ]),
        Hand::FourOfAKind
    );
    assert_eq!(
        Hand::from_cards(&vec![
            card(Rank::Seven, Suit::Club),
            card(Rank::Seven, Suit::Heart),
            card(Rank::Three, Suit::Diamond),
            card(Rank::Ace, Suit::Joker),
            card(Rank::Two, Suit::Joker),
        ]),
        Hand::FourOfAKind
    );
}

#[test]
fn full_house() {
    assert_eq!(
        Hand::from_cards(&vec![
            card(Rank::King, Suit::Club),
            card(Rank::King, Suit::Heart),
            card(Rank::King, Suit::Diamond),
            card(Rank::Queen, Suit::Spade),
            card(Rank::Queen, Suit::Club),
        ]),
        Hand::FullHouse
    );
    assert_eq!(
        Hand::from_cards(&vec![
            card(Rank::King, Suit::Club),
            card(Rank::King, Suit::Heart),
            card(Rank::Queen, Suit::Diamond),
            card(Rank::Queen, Suit::Spade),
            card(Rank::Ace, Suit::Joker),
        ]),
        Hand::FullHouse
    );
}

#[test]
fn flush() {
    assert_eq!(
        Hand::from_cards(&vec![
            card(Rank::King, Suit::Diamond),
            card(Rank::Jack, Suit::Diamond),
            card(Rank::Nine, Suit::Diamond),
            card(Rank::Five, Suit::Diamond),
            card(Rank::Three, Suit::Diamond),
        ]),
        Hand::Flush
    );
    assert_eq!(
        Hand::from_cards(&vec![
            card(Rank::King, Suit::Diamond),
            card(Rank::Jack, Suit::Diamond),
            card(Rank::Nine, Suit::Diamond),
            card(Rank::Five, Suit::Diamond),
            card(Rank::Two, Suit::Joker),
        ]),
        Hand::Flush
    );
    assert_eq!(
        Hand::from_cards(&vec![
            card(Rank::King, Suit::Diamond),
            card(Rank::Jack, Suit::Diamond),
            card(Rank::Five, Suit::Diamond),
            card(Rank::Ace, Suit::Joker),
            card(Rank::Two, Suit::Joker),
        ]),
        Hand::Flush
    );
}

#[test]
fn straight() {
    assert_eq!(
        Hand::from_cards(&vec![
            card(Rank::Ten, Suit::Club),
            card(Rank::Nine, Suit::Heart),
            card(Rank::Eight, Suit::Diamond),
            card(Rank::Seven, Suit::Spade),
            card(Rank::Six, Suit::Club),
        ]),
        Hand::Straight
    );
    assert_eq!(
        Hand::from_cards(&vec![
            card(Rank::Ten, Suit::Club),
            card(Rank::Nine, Suit::Heart),
            card(Rank::Eight, Suit::Diamond),
            card(Rank::Seven, Suit::Spade),
            card(Rank::Ace, Suit::Joker),
        ]),
        Hand::Straight
    );
    assert_eq!(
        Hand::from_cards(&vec![
            card(Rank::Ten, Suit::Club),
            card(Rank::Nine, Suit::Heart),
            card(Rank::Eight, Suit::Diamond),
            card(Rank::Ace, Suit::Joker),
            card(Rank::Two, Suit::Joker),
        ]),
        Hand::Straight
    );
}

#[test]
fn three_of_a_kind() {
    assert_eq!(
        Hand::from_cards(&vec![
            card(Rank::Queen, Suit::Club),
            card(Rank::Queen, Suit::Heart),
            card(Rank::Queen, Suit::Diamond),
            card(Rank::Five, Suit::Spade),
            card(Rank::Two, Suit::Club),
        ]),
        Hand::ThreeOfAKind
    );
    assert_eq!(
        Hand::from_cards(&vec![
            card(Rank::Queen, Suit::Club),
            card(Rank::King, Suit::Heart),
            card(Rank::Five, Suit::Diamond),
            card(Rank::Five, Suit::Spade),
            card(Rank::Two, Suit::Joker),
        ]),
        Hand::ThreeOfAKind
    );
    assert_eq!(
        Hand::from_cards(&vec![
            card(Rank::Queen, Suit::Club),
            card(Rank::Five, Suit::Diamond),
            card(Rank::Four, Suit::Spade),
            card(Rank::Ace, Suit::Joker),
            card(Rank::Two, Suit::Joker),
        ]),
        Hand::ThreeOfAKind
    );
}

#[test]
fn two_pair() {
    assert_eq!(
        Hand::from_cards(&vec![
            card(Rank::Jack, Suit::Club),
            card(Rank::Jack, Suit::Heart),
            card(Rank::Four, Suit::Diamond),
            card(Rank::Four, Suit::Spade),
            card(Rank::Two, Suit::Club),
        ]),
        Hand::TwoPair
    );
}

#[test]
fn one_pair() {
    assert_eq!(
        Hand::from_cards(&vec![
            card(Rank::King, Suit::Club),
            card(Rank::King, Suit::Heart),
            card(Rank::Nine, Suit::Diamond),
            card(Rank::Five, Suit::Spade),
            card(Rank::Two, Suit::Club),
        ]),
        Hand::JacksOrBetter
    );
    assert_eq!(
        Hand::from_cards(&vec![
            card(Rank::King, Suit::Club),
            card(Rank::Ace, Suit::Joker),
            card(Rank::Nine, Suit::Diamond),
            card(Rank::Five, Suit::Spade),
            card(Rank::Two, Suit::Club),
        ]),
        Hand::JacksOrBetter
    );
}

#[test]
fn nothing_hand() {
    assert_eq!(
        Hand::from_cards(&vec![
            card(Rank::Seven, Suit::Club),
            card(Rank::Eight, Suit::Heart),
            card(Rank::Nine, Suit::Diamond),
            card(Rank::Ten, Suit::Spade),
            card(Rank::Two, Suit::Club),
        ]),
        Hand::Nothing
    );
}

#[test]
fn wildcard_heavy_hands_reach_the_strongest_categories() {
    assert_eq!(
        Hand::from_cards(&vec![
            card(Rank::Ace, Suit::Joker),
            card(Rank::Two, Suit::Joker),
            card(Rank::Ace, Suit::Joker),
            card(Rank::Two, Suit::Joker),
            card(Rank::Ace, Suit::Joker),
        ]),
        Hand::RoyalFlush
    );
    assert_eq!(
        Hand::from_cards(&vec![
            card(Rank::Two, Suit::Club),
            card(Rank::Ace, Suit::Joker),
            card(Rank::Two, Suit::Joker),
            card(Rank::Ace, Suit::Joker),
            card(Rank::Two, Suit::Joker),
        ]),
        Hand::StraightFlush
    );
    assert_eq!(
        Hand::from_cards(&vec![
            card(Rank::King, Suit::Club),
            card(Rank::King, Suit::Heart),
            card(Rank::Ace, Suit::Joker),
            card(Rank::Two, Suit::Joker),
            card(Rank::Ace, Suit::Joker),
        ]),
        Hand::FiveOfAKind
    );
}

#[test]
fn wildcards_do_not_complete_a_second_pair() {
    // only natural pairs count towards two pair: a pair plus a wildcard is
    // read as three of a kind, never as two pair
    assert_eq!(
        Hand::from_cards(&vec![
            card(Rank::Four, Suit::Club),
            card(Rank::Four, Suit::Heart),
            card(Rank::Nine, Suit::Diamond),
            card(Rank::Five, Suit::Spade),
            card(Rank::Two, Suit::Joker),
        ]),
        Hand::ThreeOfAKind
    );
}
