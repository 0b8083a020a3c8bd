//! Promotion: when it happens, that it is idempotent, and that it only
//! changes how the Chicken kind moves.

use animal_shogi::Animal;
use animal_shogi::AnimalShogiMaster;
use animal_shogi::Board;
use animal_shogi::Direction;
use animal_shogi::Message;
use animal_shogi::Piece;
use animal_shogi::PieceKind;
use animal_shogi::Player;
use animal_shogi::Pools;
use animal_shogi::TurnCounter;

fn master_from_layout(layout: &str) -> AnimalShogiMaster {
    AnimalShogiMaster {
        counter: TurnCounter::default(),
        board: Board::from_str(layout).unwrap(),
        pools: Pools::default(),
    }
}

const ALL_DIRECTIONS: [Direction; 8] = [
    Direction::Forward,
    Direction::Backward,
    Direction::Left,
    Direction::Right,
    Direction::ForwardLeft,
    Direction::ForwardRight,
    Direction::BackwardLeft,
    Direction::BackwardRight,
];

#[test]
fn promote_is_idempotent() {
    let mut p = Piece::new(PieceKind::Chicken, Player::First);
    assert_eq!(p.get_face(), Animal::Chick);
    p.promote();
    assert!(p.is_promoted);
    assert_eq!(p.get_face(), Animal::Hen);
    p.promote();
    assert!(p.is_promoted);
    assert_eq!(p.get_face(), Animal::Hen);
}

#[test]
fn only_chicken_changes_moves_on_promotion() {
    for kind in [
        PieceKind::Chicken,
        PieceKind::Elephant,
        PieceKind::Giraffe,
        PieceKind::Lion,
    ] {
        let plain = Piece::new(kind, Player::First);
        let mut promoted = Piece::new(kind, Player::First);
        promoted.promote();
        let mut changed = false;
        for d in ALL_DIRECTIONS {
            if plain.can_move_to(d) != promoted.can_move_to(d) {
                changed = true;
            }
        }
        assert_eq!(changed, kind == PieceKind::Chicken);
    }
}

#[test]
fn chick_promotes_on_back_rank() {
    let mut m = master_from_layout("---;C--;---;--l;");
    let r = m.move_piece_from_to((1, 0), (0, 0));
    assert_eq!(
        r,
        Ok(Message::Moved {
            captured: false,
            promoted: true
        })
    );
    let moved = m.board.get_cell_at((0, 0)).unwrap();
    assert_eq!(moved.kind, PieceKind::Chicken);
    assert!(moved.is_promoted);
    assert_eq!(moved.get_face(), Animal::Hen);
}

#[test]
fn second_chick_promotes_on_row_three() {
    let mut m = master_from_layout("L--;---;--c;---;");
    // First's Lion steps aside, then Second's Chick reaches row 3.
    assert!(m.move_piece_from_to((0, 0), (0, 1)).is_ok());
    let r = m.move_piece_from_to((2, 2), (3, 2));
    assert_eq!(
        r,
        Ok(Message::Moved {
            captured: false,
            promoted: true
        })
    );
    let moved = m.board.get_cell_at((3, 2)).unwrap();
    assert_eq!(moved.owner, Player::Second);
    assert!(moved.is_promoted);
}

#[test]
fn hen_on_back_rank_is_not_newly_promoted() {
    let mut m = master_from_layout("---;H--;---;--l;");
    let r = m.move_piece_from_to((1, 0), (0, 0));
    assert_eq!(
        r,
        Ok(Message::Moved {
            captured: false,
            promoted: false
        })
    );
    let moved = m.board.get_cell_at((0, 0)).unwrap();
    assert!(moved.is_promoted);
    assert_eq!(moved.get_face(), Animal::Hen);
}

#[test]
fn giraffe_does_not_promote_on_back_rank() {
    let mut m = master_from_layout("---;G--;---;--l;");
    let r = m.move_piece_from_to((1, 0), (0, 0));
    assert_eq!(
        r,
        Ok(Message::Moved {
            captured: false,
            promoted: false
        })
    );
    let moved = m.board.get_cell_at((0, 0)).unwrap();
    assert!(!moved.is_promoted);
    assert_eq!(moved.get_face(), Animal::Giraffe);
}

#[test]
fn chick_away_from_back_rank_does_not_promote() {
    let mut m = master_from_layout("---;---;-C-;--l;");
    let r = m.move_piece_from_to((2, 1), (1, 1));
    assert_eq!(
        r,
        Ok(Message::Moved {
            captured: false,
            promoted: false
        })
    );
    assert!(!m.board.get_cell_at((1, 1)).unwrap().is_promoted);
}

#[test]
fn devolve_clears_promotion() {
    let mut p = Piece::new(PieceKind::Chicken, Player::Second);
    p.promote();
    assert_eq!(p.get_face(), Animal::Hen);
    p.devolve();
    assert!(!p.is_promoted);
    assert_eq!(p.get_face(), Animal::Chick);
}
