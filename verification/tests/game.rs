use mijnlieff::board::Board;
use mijnlieff::game::Game;
use mijnlieff::hand::Hand;
use mijnlieff::status::Status::{Draw, Loss, Win};
use mijnlieff::tile::Tile::{Diagonal, Puller, Pusher, Straight};

#[test]
fn is_over() {
    assert!(!Game::default().is_over());

    let hand = Hand::default()
        .without(Puller)
        .without(Puller)
        .without(Pusher)
        .without(Pusher)
        .without(Straight)
        .without(Straight)
        .without(Diagonal)
        .without(Diagonal);
    assert!(Game {
        hand,
        ..Game::default()
    }
    .is_over());
}

#[test]
fn get_status() {
    assert_eq!(Draw, Game::default().get_status());

    assert_eq!(
        Win,
        Game {
            board: Board::from(0b_0000_0000_0000_0111),
            ..Game::default()
        }
        .get_status()
    );

    assert_eq!(
        Loss,
        Game {
            opponent_board: Board::from(0b_0000_0000_0000_0111),
            ..Game::default()
        }
        .get_status()
    );
}

#[test]
fn player_must_pass() {
    assert!(!Game::default().player_must_pass());

    assert!(Game {
        unavailable: Board::from(0b_1111_1111_1111_1111),
        ..Game::default()
    }
    .player_must_pass())
}

#[test]
fn game_is_available() {
    let game = Game {
        unavailable: Board::from(0b_1111_1111_1111_1110),
        ..Game::default()
    };
    assert!(game.is_available(0));
    assert!(!game.is_available(1));
}

#[test]
fn game_has() {
    let game = Game {
        hand: Hand::default().without(Puller).without(Puller),
        ..Game::default()
    };
    assert!(!game.has(Puller));
    assert!(game.has(Pusher));
    assert!(game.has(Straight));
    assert!(game.has(Diagonal));
}

#[test]
fn with_pass() {
    let game = Game {
        board: Board::from(0b_0000_0000_0000_1111),
        hand: Hand::default(),
        opponent_board: Board::from(0b_1111_0000_0000_0000),
        opponent_hand: Hand::default().without(Puller),
        ..Game::default()
    };

    let after_pass = game.with_pass();

    assert_eq!(after_pass.board, game.opponent_board);
    assert_eq!(after_pass.hand, game.opponent_hand);
    assert_eq!(after_pass.opponent_board, game.board);
    assert_eq!(after_pass.opponent_hand, game.hand);
    assert_eq!(after_pass.unavailable, Board::from(0b_1111_0000_0000_1111));
}

#[test]
fn with_move() {
    let game = Game {
        board: Board::from(0b_0000_0000_0000_1111),
        hand: Hand::default(),
        opponent_board: Board::from(0b_1111_0000_0000_0000),
        opponent_hand: Hand::default().without(Puller),
        ..Game::default()
    };

    let after_move = game.with_move(Diagonal, 5);

    assert_eq!(after_move.board, game.opponent_board);
    assert_eq!(after_move.hand, game.opponent_hand);
    assert_eq!(
        after_move.opponent_board,
        Board::from(0b_0000_0000_0010_1111)
    );
    assert_eq!(after_move.opponent_hand, Hand::default().without(Diagonal));
    assert_eq!(after_move.unavailable, Board::from(0b_1111_1010_1111_1111));
}
