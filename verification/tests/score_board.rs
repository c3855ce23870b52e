use video_poker_core::{GameError, Hand, Rate, ScoreBoard};

fn default_rate() -> Rate {
    Rate {
        royal_flush: 500,
        five_of_a_kind: 200,
        straight_flush: 120,
        four_of_a_kind: 50,
        full_house: 10,
        flush: 7,
        straight: 5,
        three_of_a_kind: 3,
        two_pair: 2,
        jacks_or_better: 1,
    }
}

#[test]
fn cost_should_subtract_token_with_cost() {
    let mut board = ScoreBoard::new(100, default_rate(), 2);

    board.cost(50).unwrap();
    assert_eq!(board.token(), 50);
}

#[test]
fn cost_should_return_err_if_no_enough_token() {
    let mut board = ScoreBoard::new(100, default_rate(), 2);

    assert!(board.cost(500).is_err());
}

#[test]
fn apply_should_add_token_base_on_result() {
    const BASE: usize = 50;
    let test_cases = [
        ((Hand::RoyalFlush, 0), 500),
        ((Hand::FiveOfAKind, 0), 200),
        ((Hand::StraightFlush, 0), 120),
        ((Hand::FourOfAKind, 0), 50),
        ((Hand::FullHouse, 0), 10),
        ((Hand::Flush, 0), 7),
        ((Hand::Straight, 0), 5),
        ((Hand::ThreeOfAKind, 0), 3),
        ((Hand::TwoPair, 0), 2),
        ((Hand::JacksOrBetter, 0), 1),
        ((Hand::JacksOrBetter, 1), 1),
        ((Hand::JacksOrBetter, 2), 2),
        ((Hand::JacksOrBetter, 3), 4),
    ];

    for ((hand, round), expect) in test_cases {
        let mut board = ScoreBoard::new(0, default_rate(), 2);
        board.apply(BASE, hand, round);

        assert_eq!(board.token(), BASE * expect);
    }
}

#[test]
fn rejected_deduction_leaves_the_balance_untouched() {
    let mut board = ScoreBoard::new(200, default_rate(), 2);

    board.cost(50).unwrap();
    assert_eq!(board.token(), 150);

    assert_eq!(board.cost(500), Err(GameError::InsufficientTokens));
    assert_eq!(board.token(), 150);
}

#[test]
fn prize_multiplies_cost_rate_and_bonus() {
    let board = ScoreBoard::new(0, default_rate(), 2);

    // three bonus rounds reached: the multiplier doubles twice
    assert_eq!(board.prize(50, &Hand::JacksOrBetter, Some(3)), 200);
    // no bonus game played
    assert_eq!(board.prize(50, &Hand::JacksOrBetter, None), 50);
    // declining the bonus at round one is neutral, not a loss
    assert_eq!(board.prize(50, &Hand::JacksOrBetter, Some(1)), 50);
    // a losing hand earns nothing whatever the bonus
    assert_eq!(board.prize(50, &Hand::Nothing, Some(3)), 0);
}

#[test]
fn prize_with_other_bonus_base() {
    let board = ScoreBoard::new(0, default_rate(), 3);

    assert_eq!(board.prize(10, &Hand::FullHouse, Some(3)), 10 * 10 * 9);
}
