//! Win detection: capturing the Lion, and a Lion reaching the opponent's
//! back rank safely.

use animal_shogi::AnimalShogiMaster;
use animal_shogi::Board;
use animal_shogi::Player;
use animal_shogi::Pools;
use animal_shogi::TurnCounter;

fn master_from_layout(layout: &str) -> AnimalShogiMaster {
    AnimalShogiMaster {
        counter: TurnCounter::default(),
        board: Board::from_str(layout).unwrap(),
        pools: Pools::default(),
    }
}

#[test]
fn scenario_c_capturing_the_lion_wins_immediately() {
    // A whole game from the canonical opening, ending in First capturing
    // Second's Lion.  The winner appears immediately after that move and
    // not a move earlier.
    let mut m = AnimalShogiMaster::default();
    assert!(m.move_piece_from_to((2, 1), (1, 1)).is_ok()); // C takes c
    assert_eq!(m.get_winner(), None);
    assert!(m.move_piece_from_to((0, 1), (1, 1)).is_ok()); // l takes C
    assert_eq!(m.get_winner(), None);
    assert!(m.move_piece_from_to((3, 0), (2, 1)).is_ok()); // E steps out
    assert_eq!(m.get_winner(), None);
    assert!(m.move_piece_from_to((1, 1), (2, 1)).is_ok()); // l takes E
    assert_eq!(m.get_winner(), None);
    assert!(m.move_piece_from_to((3, 1), (2, 1)).is_ok()); // L takes l
    assert_eq!(m.get_winner(), Some(Player::First));
}

#[test]
fn second_capturing_the_lion_wins() {
    let mut m = master_from_layout("---;-l-;-L-;--G;");
    assert!(m.move_piece_from_to((3, 2), (2, 2)).is_ok()); // G steps forward
    assert_eq!(m.get_winner(), None);
    assert!(m.move_piece_from_to((1, 1), (2, 1)).is_ok()); // l takes L
    assert_eq!(m.get_winner(), Some(Player::Second));
}

#[test]
fn scenario_d_threatened_back_rank_lion_does_not_win() {
    // First's Lion reaches row 0, but Second's Giraffe on (0,0) can step
    // onto that cell: no win.  Once the Giraffe walks away, the Lion is
    // safe and First wins.
    let mut m = master_from_layout("g--;-L-;---;---;");
    assert!(m.move_piece_from_to((1, 1), (0, 1)).is_ok());
    assert_eq!(m.get_winner(), None);
    assert!(m.move_piece_from_to((0, 0), (1, 0)).is_ok());
    assert_eq!(m.get_winner(), Some(Player::First));
}

#[test]
fn safe_back_rank_lion_wins_at_once() {
    let mut m = master_from_layout("---;-L-;---;g--;");
    assert!(m.move_piece_from_to((1, 1), (0, 1)).is_ok());
    assert_eq!(m.get_winner(), Some(Player::First));
}

#[test]
fn second_lion_on_row_three_wins_when_safe() {
    let mut m = master_from_layout("G--;---;-l-;---;");
    assert!(m.move_piece_from_to((0, 0), (1, 0)).is_ok()); // G steps forward
    assert_eq!(m.get_winner(), None);
    assert!(m.move_piece_from_to((2, 1), (3, 1)).is_ok()); // l reaches row 3
    assert_eq!(m.get_winner(), Some(Player::Second));
}

#[test]
fn second_lion_on_row_three_threatened_by_giraffe_does_not_win() {
    let mut m = master_from_layout("---;---;-lG;---;");
    // First's Giraffe steps down to (3,2), from where it guards (3,1).
    assert!(m.move_piece_from_to((2, 2), (3, 2)).is_ok());
    assert_eq!(m.get_winner(), None);
    assert!(m.move_piece_from_to((2, 1), (3, 1)).is_ok()); // l reaches row 3
    assert_eq!(m.get_winner(), None);
}

#[test]
fn fresh_game_has_no_winner() {
    let m = AnimalShogiMaster::default();
    assert_eq!(m.get_winner(), None);
}
