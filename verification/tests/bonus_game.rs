use std::cell::Cell;

use video_poker_core::bonus_game::{BonusGame, Guess, Player};
use video_poker_core::{Card, Rank, Suit};

#[test]
fn rank_seven_wins_with_either_guess() {
    let seven = Card {
        suit: Suit::Heart,
        rank: Rank::Seven,
    };

    assert!(BonusGame::guess_is_correct(&seven, &Guess::Greater));
    assert!(BonusGame::guess_is_correct(&seven, &Guess::Less));
}

#[test]
fn guesses_resolve_against_seven() {
    let king = Card {
        suit: Suit::Club,
        rank: Rank::King,
    };
    let two = Card {
        suit: Suit::Spade,
        rank: Rank::Two,
    };

    assert!(BonusGame::guess_is_correct(&king, &Guess::Greater));
    assert!(!BonusGame::guess_is_correct(&king, &Guess::Less));
    assert!(BonusGame::guess_is_correct(&two, &Guess::Less));
    assert!(!BonusGame::guess_is_correct(&two, &Guess::Greater));
}

struct DecliningPlayer;

impl Player for DecliningPlayer {
    fn new_round(&self, _current_round: usize) -> bool {
        false
    }

    fn guess(&self) -> Guess {
        Guess::Greater
    }

    fn round_result(&self, _card: &Card, _guess: &Guess, _win: bool) {}
}

#[test]
fn declining_at_round_one_is_a_neutral_outcome() {
    let mut game = BonusGame::new();

    assert_eq!(game.start(&mut DecliningPlayer), Some(1));
}

struct OneRoundPlayer {
    asked: Cell<usize>,
    won: Cell<bool>,
}

impl Player for OneRoundPlayer {
    fn new_round(&self, current_round: usize) -> bool {
        self.asked.set(self.asked.get() + 1);
        current_round == 1
    }

    fn guess(&self) -> Guess {
        Guess::Greater
    }

    fn round_result(&self, card: &Card, guess: &Guess, win: bool) {
        assert_eq!(win, BonusGame::guess_is_correct(card, guess));
        self.won.set(win);
    }
}

#[test]
fn one_round_session_reports_its_outcome() {
    let mut game = BonusGame::new();
    let mut player = OneRoundPlayer {
        asked: Cell::new(0),
        won: Cell::new(false),
    };

    let outcome = game.start(&mut player);
    if player.won.get() {
        // the guessed round was won and the second round declined
        assert_eq!(outcome, Some(2));
        assert_eq!(player.asked.get(), 2);
    } else {
        // the guessed round was lost: no bonus
        assert_eq!(outcome, None);
        assert_eq!(player.asked.get(), 1);
    }
}
