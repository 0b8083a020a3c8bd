//! Piece kinds, their promotion faces and their movement table.

use vstd::prelude::*;

use crate::geometry::cell_in_bounds;
use crate::geometry::direction_of_delta;
use crate::geometry::Direction;
use crate::geometry::Player;

verus! {

/// The face a piece currently shows, which decides how it moves.
#[derive(Clone, Copy, PartialEq, Eq, Structural, Debug)]
pub enum Animal {
    Chick,
    Hen,
    Elephant,
    Giraffe,
    Lion,
}

/// The movement table: which single-step directions each face may take.
/// The Chick only walks forward; its promoted face, the Hen, moves in every
/// direction but the two backward diagonals; the Elephant takes the four
/// diagonals, the Giraffe the four orthogonals, and the Lion all eight.
pub open spec fn animal_can_move(a: Animal, d: Direction) -> bool {
    match a {
        Animal::Chick => d is Forward,
        Animal::Hen => !(d is BackwardLeft || d is BackwardRight),
        Animal::Elephant => d is ForwardLeft || d is ForwardRight || d is BackwardLeft
            || d is BackwardRight,
        Animal::Giraffe => d is Forward || d is Backward || d is Left || d is Right,
        Animal::Lion => true,
    }
}

impl Animal {
    /// Whether this face may take a single step in direction `target`.
    pub fn can_move_to(&self, target: Direction) -> (r: bool)
        ensures
            r == animal_can_move(*self, target),
    {
        match self {
            Animal::Chick => matches!(target, Direction::Forward),
            Animal::Hen => !matches!(target, Direction::BackwardLeft | Direction::BackwardRight),
            Animal::Elephant => matches!(
                target,
                Direction::ForwardLeft
                    | Direction::ForwardRight
                    | Direction::BackwardLeft
                    | Direction::BackwardRight
            ),
            Animal::Giraffe => matches!(
                target,
                Direction::Forward | Direction::Backward | Direction::Left | Direction::Right
            ),
            Animal::Lion => true,
        }
    }
}

/// The kind of a piece, independent of promotion.  Only the Chicken kind has
/// two faces: Chick when unpromoted, Hen when promoted.
#[derive(Clone, Copy, PartialEq, Eq, Structural, Debug)]
pub enum PieceKind {
    Chicken,
    Elephant,
    Giraffe,
    Lion,
}

/// The face a kind shows for a given promotion flag.  Promotion only changes
/// the Chicken kind; every other kind keeps its single face.
pub open spec fn face_of(kind: PieceKind, is_promoted: bool) -> Animal {
    match (kind, is_promoted) {
        (PieceKind::Chicken, false) => Animal::Chick,
        (PieceKind::Chicken, true) => Animal::Hen,
        (PieceKind::Elephant, _) => Animal::Elephant,
        (PieceKind::Giraffe, _) => Animal::Giraffe,
        (PieceKind::Lion, _) => Animal::Lion,
    }
}

impl PieceKind {
    /// The face this kind shows for a given promotion flag.
    pub fn get_face(&self, is_promoted: bool) -> (r: Animal)
        ensures
            r == face_of(*self, is_promoted),
    {
        match (self, is_promoted) {
            (PieceKind::Chicken, false) => Animal::Chick,
            (PieceKind::Chicken, true) => Animal::Hen,
            (PieceKind::Elephant, _) => Animal::Elephant,
            (PieceKind::Giraffe, _) => Animal::Giraffe,
            (PieceKind::Lion, _) => Animal::Lion,
        }
    }
}

/// A piece on the board or in a pool: its kind, its promotion flag and its
/// owner.
#[derive(Clone, Copy, PartialEq, Eq, Structural, Debug)]
pub struct Piece {
    pub kind: PieceKind,
    pub is_promoted: bool,
    pub owner: Player,
}

/// `p` with its promotion flag set.
pub open spec fn promoted(p: Piece) -> Piece {
    Piece { is_promoted: true, ..p }
}

/// Whether `p` may take a single step in direction `d`, by the movement table
/// of its current face.
pub open spec fn piece_can_move(p: Piece, d: Direction) -> bool {
    animal_can_move(face_of(p.kind, p.is_promoted), d)
}

/// Whether `p`, standing on `from`, may step onto `to`: the displacement must
/// be a single step to an adjacent cell, read in the owner's frame (the
/// forward/backward axis is mirrored for `Second`), and the movement table of
/// `p`'s face must allow that direction.
pub open spec fn piece_reach(p: Piece, from: (int, int), to: (int, int)) -> bool {
    let dr = to.0 - from.0;
    let dc = to.1 - from.1;
    let ndr = if p.owner is Second {
        -dr
    } else {
        dr
    };
    match direction_of_delta(ndr, dc) {
        Some(d) => piece_can_move(p, d),
        None => false,
    }
}

/// The piece a board-layout character denotes: `C/c` Chick, `H/h` Hen (a
/// promoted Chicken), `E/e` Elephant, `G/g` Giraffe, `L/l` Lion, uppercase for
/// `First` and lowercase for `Second`; any other character denotes no piece.
pub open spec fn piece_of_char(c: char) -> Option<Piece> {
    if c == 'C' {
        Some(Piece { kind: PieceKind::Chicken, is_promoted: false, owner: Player::First })
    } else if c == 'H' {
        Some(Piece { kind: PieceKind::Chicken, is_promoted: true, owner: Player::First })
    } else if c == 'E' {
        Some(Piece { kind: PieceKind::Elephant, is_promoted: false, owner: Player::First })
    } else if c == 'G' {
        Some(Piece { kind: PieceKind::Giraffe, is_promoted: false, owner: Player::First })
    } else if c == 'L' {
        Some(Piece { kind: PieceKind::Lion, is_promoted: false, owner: Player::First })
    } else if c == 'c' {
        Some(Piece { kind: PieceKind::Chicken, is_promoted: false, owner: Player::Second })
    } else if c == 'h' {
        Some(Piece { kind: PieceKind::Chicken, is_promoted: true, owner: Player::Second })
    } else if c == 'e' {
        Some(Piece { kind: PieceKind::Elephant, is_promoted: false, owner: Player::Second })
    } else if c == 'g' {
        Some(Piece { kind: PieceKind::Giraffe, is_promoted: false, owner: Player::Second })
    } else if c == 'l' {
        Some(Piece { kind: PieceKind::Lion, is_promoted: false, owner: Player::Second })
    } else {
        None
    }
}

impl Piece {
    /// A fresh, unpromoted piece of the given kind and owner.
    pub fn new(kind: PieceKind, owner: Player) -> (r: Piece)
        ensures
            r == (Piece { kind, is_promoted: false, owner }),
    {
        Piece { kind, is_promoted: false, owner }
    }

    /// The piece a board-layout character denotes, or `None` when the
    /// character denotes an empty cell.
    pub fn from_char(c: char) -> (r: Option<Piece>)
        ensures
            r == piece_of_char(c),
    {
        match c {
            'C' => Some(Piece::new(PieceKind::Chicken, Player::First)),
            'H' => Some(Piece { kind: PieceKind::Chicken, is_promoted: true, owner: Player::First }),
            'E' => Some(Piece::new(PieceKind::Elephant, Player::First)),
            'G' => Some(Piece::new(PieceKind::Giraffe, Player::First)),
            'L' => Some(Piece::new(PieceKind::Lion, Player::First)),
            'c' => Some(Piece::new(PieceKind::Chicken, Player::Second)),
            'h' => Some(
                Piece { kind: PieceKind::Chicken, is_promoted: true, owner: Player::Second },
            ),
            'e' => Some(Piece::new(PieceKind::Elephant, Player::Second)),
            'g' => Some(Piece::new(PieceKind::Giraffe, Player::Second)),
            'l' => Some(Piece::new(PieceKind::Lion, Player::Second)),
            _ => None,
        }
    }

    /// Sets the promotion flag.  Promoting an already promoted piece leaves it
    /// promoted, and only the Chicken kind changes its face (see
    /// [`lemma_promotion_changes_only_chicken_moves`]).
    pub fn promote(&mut self)
        ensures
            *final(self) == promoted(*old(self)),
    {
        self.is_promoted = true;
    }

    /// Clears the promotion flag; a captured piece always enters the pool in
    /// this demoted form.
    pub fn devolve(&mut self)
        ensures
            *final(self) == (Piece { is_promoted: false, ..*old(self) }),
    {
        self.is_promoted = false;
    }

    /// The face this piece currently shows.
    pub fn get_face(&self) -> (r: Animal)
        ensures
            r == face_of(self.kind, self.is_promoted),
    {
        self.kind.get_face(self.is_promoted)
    }

    /// Whether this piece is of the given kind.
    pub fn is_kind_of(&self, kind: PieceKind) -> (r: bool)
        ensures
            r == (self.kind == kind),
    {
        self.kind == kind
    }

    /// Whether this piece belongs to the given player.
    pub fn is_owned_by(&self, player: Player) -> (r: bool)
        ensures
            r == (self.owner == player),
    {
        self.owner == player
    }

    /// Whether this piece may take a single step in direction `target`.
    pub fn can_move_to(&self, target: Direction) -> (r: bool)
        ensures
            r == piece_can_move(*self, target),
    {
        self.get_face().can_move_to(target)
    }

    /// Whether this piece, standing on `from`, may step onto `to`.
    pub fn can_move_from_to(&self, from: (usize, usize), to: (usize, usize)) -> (r: bool)
        requires
            cell_in_bounds(from.0 as int, from.1 as int),
            cell_in_bounds(to.0 as int, to.1 as int),
        ensures
            r == piece_reach(
                *self,
                (from.0 as int, from.1 as int),
                (to.0 as int, to.1 as int),
            ),
    {
        let dr: i32 = to.0 as i32 - from.0 as i32;
        let dc: i32 = to.1 as i32 - from.1 as i32;
        let ndr: i32 = match self.owner {
            Player::First => dr,
            Player::Second => -dr,
        };
        match crate::geometry::direction_from_delta(ndr, dc) {
            Some(d) => self.can_move_to(d),
            None => false,
        }
    }
}

/// The board-layout character for a piece: the first letter of its face,
/// uppercase for `First` and lowercase for `Second`.  This is the inverse of
/// [`piece_of_char`] on the characters that denote pieces.
pub open spec fn face_char(p: Piece) -> char {
    match (p.owner, face_of(p.kind, p.is_promoted)) {
        (Player::First, Animal::Chick) => 'C',
        (Player::First, Animal::Hen) => 'H',
        (Player::First, Animal::Elephant) => 'E',
        (Player::First, Animal::Giraffe) => 'G',
        (Player::First, Animal::Lion) => 'L',
        (Player::Second, Animal::Chick) => 'c',
        (Player::Second, Animal::Hen) => 'h',
        (Player::Second, Animal::Elephant) => 'e',
        (Player::Second, Animal::Giraffe) => 'g',
        (Player::Second, Animal::Lion) => 'l',
    }
}

impl Piece {
    /// The board-layout character for this piece, as a one-character string.
    pub fn face_str(&self) -> (r: &'static str)
        ensures
            r@ == seq![face_char(*self)],
    {
        proof {
            reveal_strlit("C");
            reveal_strlit("H");
            reveal_strlit("E");
            reveal_strlit("G");
            reveal_strlit("L");
            reveal_strlit("c");
            reveal_strlit("h");
            reveal_strlit("e");
            reveal_strlit("g");
            reveal_strlit("l");
        }
        match (self.owner, self.get_face()) {
            (Player::First, Animal::Chick) => "C",
            (Player::First, Animal::Hen) => "H",
            (Player::First, Animal::Elephant) => "E",
            (Player::First, Animal::Giraffe) => "G",
            (Player::First, Animal::Lion) => "L",
            (Player::Second, Animal::Chick) => "c",
            (Player::Second, Animal::Hen) => "h",
            (Player::Second, Animal::Elephant) => "e",
            (Player::Second, Animal::Giraffe) => "g",
            (Player::Second, Animal::Lion) => "l",
        }
    }
}

/// Promotion only changes how the Chicken kind moves: for every other kind the
/// promoted piece moves exactly as the unpromoted one, while a promoted
/// Chicken gains, among others, the backward step that the bare Chick lacks.
pub proof fn lemma_promotion_changes_only_chicken_moves(p: Piece)
    ensures
        forall|d: Direction| p.kind != PieceKind::Chicken ==> #[trigger] piece_can_move(
            promoted(p),
            d,
        ) == piece_can_move(p, d),
        p.kind == PieceKind::Chicken ==> piece_can_move(promoted(p), Direction::Backward) && (
        p.is_promoted || !piece_can_move(p, Direction::Backward)),
{
}

} // verus!
