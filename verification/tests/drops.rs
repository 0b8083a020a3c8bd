//! Dropping captured pieces back onto the board.

use animal_shogi::AnimalShogiMaster;
use animal_shogi::Message;
use animal_shogi::Piece;
use animal_shogi::PieceKind;
use animal_shogi::Player;
use animal_shogi::RuleError;

fn occupied_count(m: &AnimalShogiMaster) -> usize {
    let mut n = 0;
    for row in 0..4usize {
        for col in 0..3usize {
            if m.board.get_cell_at((row, col)).is_some() {
                n += 1;
            }
        }
    }
    n
}

/// Plays two moves from the opening so that First holds a captured Chick:
/// First's Chick takes Second's Chick, then Second's Giraffe steps forward.
fn master_with_captured_chick() -> AnimalShogiMaster {
    let mut m = AnimalShogiMaster::default();
    assert!(m.move_piece_from_to((2, 1), (1, 1)).is_ok());
    assert!(m.move_piece_from_to((0, 0), (1, 0)).is_ok());
    assert_eq!(m.counter.player, Player::First);
    assert_eq!(m.pools.get_pool_of(Player::First).len(), 1);
    m
}

#[test]
fn drop_conservation() {
    let mut m = master_with_captured_chick();
    let occupied_before = occupied_count(&m);
    let pool_before = m.pools.get_pool_of(Player::First).len();
    let r = m.drop_piece_to(0, (2, 1));
    assert_eq!(r, Ok(Message::Dropped));
    assert_eq!(m.pools.get_pool_of(Player::First).len(), pool_before - 1);
    assert_eq!(occupied_count(&m), occupied_before + 1);
    assert_eq!(
        m.board.get_cell_at((2, 1)),
        Some(Piece {
            kind: PieceKind::Chicken,
            is_promoted: false,
            owner: Player::First
        })
    );
    assert_eq!(m.counter.player, Player::Second);
}

#[test]
fn drop_rejections_leave_state_unchanged() {
    let mut m = master_with_captured_chick();
    let before = m.board.to_layout_string();
    assert_eq!(m.drop_piece_to(0, (4, 0)), Err(RuleError::OutOfBounds));
    assert_eq!(m.drop_piece_to(0, (0, 3)), Err(RuleError::OutOfBounds));
    assert_eq!(m.drop_piece_to(0, (3, 1)), Err(RuleError::CellOccupied));
    assert_eq!(m.drop_piece_to(1, (2, 1)), Err(RuleError::InvalidPoolIndex));
    assert_eq!(m.board.to_layout_string(), before);
    assert_eq!(m.pools.get_pool_of(Player::First).len(), 1);
    assert_eq!(m.counter.player, Player::First);
}

#[test]
fn drop_from_empty_pool_fails() {
    let mut m = AnimalShogiMaster::default();
    assert_eq!(m.drop_piece_to(0, (2, 0)), Err(RuleError::InvalidPoolIndex));
}

#[test]
fn captured_hen_drops_as_chick() {
    // A promoted Chicken is captured, enters the pool demoted, and comes
    // back onto the board as a bare Chick.
    let mut m = AnimalShogiMaster {
        counter: animal_shogi::TurnCounter::default(),
        board: animal_shogi::Board::from_str("-l-;-h-;-C-;-L-;").unwrap(),
        pools: animal_shogi::Pools::default(),
    };
    assert!(m.move_piece_from_to((2, 1), (1, 1)).is_ok());
    assert_eq!(m.pools.get_pool_of(Player::First)[0], PieceKind::Chicken);
    // Second moves its Lion sideways, then First drops the captured piece.
    assert!(m.move_piece_from_to((0, 1), (0, 0)).is_ok());
    let r = m.drop_piece_to(0, (3, 0));
    assert_eq!(r, Ok(Message::Dropped));
    let dropped = m.board.get_cell_at((3, 0)).unwrap();
    assert_eq!(dropped.kind, PieceKind::Chicken);
    assert!(!dropped.is_promoted);
    assert_eq!(dropped.owner, Player::First);
}

#[test]
fn pool_indices_shift_after_removal() {
    // With two captures in the pool, removing the first entry shifts the
    // second one down to index 0.
    let mut m = AnimalShogiMaster {
        counter: animal_shogi::TurnCounter::default(),
        board: animal_shogi::Board::from_str("l--;-ce;--L;---;").unwrap(),
        pools: animal_shogi::Pools::default(),
    };
    assert!(m.move_piece_from_to((2, 2), (1, 2)).is_ok()); // L takes e
    assert!(m.move_piece_from_to((0, 0), (1, 0)).is_ok()); // l steps forward
    assert!(m.move_piece_from_to((1, 2), (1, 1)).is_ok()); // L takes c
    let pool = m.pools.get_pool_of(Player::First);
    assert_eq!(pool.len(), 2);
    assert_eq!(pool[0], PieceKind::Elephant);
    assert_eq!(pool[1], PieceKind::Chicken);
    assert!(m.move_piece_from_to((1, 0), (2, 0)).is_ok()); // l steps forward
    assert!(m.drop_piece_to(0, (3, 0)).is_ok()); // drop the Elephant
    let pool = m.pools.get_pool_of(Player::First);
    assert_eq!(pool.len(), 1);
    assert_eq!(pool[0], PieceKind::Chicken);
}
