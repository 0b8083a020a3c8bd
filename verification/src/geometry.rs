//! Players and the eight movement directions.
//!
//! Directions are named relative to the owning player's forward axis: for
//! [`Player::First`] forward means decreasing row, for [`Player::Second`] the
//! forward/backward axis is mirrored, so forward means increasing row.  The
//! left/right axis is the same for both players.

use vstd::prelude::*;

verus! {

/// One of the two players.  `First` starts at the bottom of the board (rows 2
/// and 3) and aims for row 0; `Second` starts at the top and aims for row 3.
#[derive(Clone, Copy, PartialEq, Eq, Structural, Debug)]
pub enum Player {
    First,
    Second,
}

/// The other player.
pub open spec fn opponent(p: Player) -> Player {
    match p {
        Player::First => Player::Second,
        Player::Second => Player::First,
    }
}

/// The back rank a player aims for: row 0 for `First`, row 3 for `Second`.
/// A Chick-line piece that lands there promotes, and a Lion that sits there
/// safely wins.
pub open spec fn back_rank(p: Player) -> int {
    match p {
        Player::First => 0,
        Player::Second => 3,
    }
}

/// Whether `(row, col)` lies on the 4-row, 3-column board.
pub open spec fn cell_in_bounds(row: int, col: int) -> bool {
    0 <= row < 4 && 0 <= col < 3
}

/// One of the eight directions a piece can move in, a single step to an
/// adjacent cell.
#[derive(Clone, Copy, PartialEq, Eq, Structural, Debug)]
pub enum Direction {
    Forward,
    Backward,
    Left,
    Right,
    ForwardLeft,
    ForwardRight,
    BackwardLeft,
    BackwardRight,
}

/// The `(row, col)` displacement of a direction in `First`'s frame, where
/// forward decreases the row.
pub open spec fn base_step(d: Direction) -> (int, int) {
    match d {
        Direction::Forward => (-1int, 0int),
        Direction::Backward => (1int, 0int),
        Direction::Left => (0int, -1int),
        Direction::Right => (0int, 1int),
        Direction::ForwardLeft => (-1int, -1int),
        Direction::ForwardRight => (-1int, 1int),
        Direction::BackwardLeft => (1int, -1int),
        Direction::BackwardRight => (1int, 1int),
    }
}

/// The `(row, col)` displacement of a direction for a given owner.  Only the
/// forward/backward axis is mirrored for `Second`; left and right are shared.
pub open spec fn step_of(d: Direction, owner: Player) -> (int, int) {
    match owner {
        Player::First => base_step(d),
        Player::Second => (-base_step(d).0, base_step(d).1),
    }
}

/// The direction whose displacement in `First`'s frame is `(dr, dc)`, if the
/// displacement is a single step to one of the eight neighbouring cells.
pub open spec fn direction_of_delta(dr: int, dc: int) -> Option<Direction> {
    if dr == -1 && dc == 0 {
        Some(Direction::Forward)
    } else if dr == 1 && dc == 0 {
        Some(Direction::Backward)
    } else if dr == 0 && dc == -1 {
        Some(Direction::Left)
    } else if dr == 0 && dc == 1 {
        Some(Direction::Right)
    } else if dr == -1 && dc == -1 {
        Some(Direction::ForwardLeft)
    } else if dr == -1 && dc == 1 {
        Some(Direction::ForwardRight)
    } else if dr == 1 && dc == -1 {
        Some(Direction::BackwardLeft)
    } else if dr == 1 && dc == 1 {
        Some(Direction::BackwardRight)
    } else {
        None
    }
}

/// The direction whose displacement in `First`'s frame is `(dr, dc)`, or
/// `None` when the displacement is no single step to an adjacent cell.
pub fn direction_from_delta(dr: i32, dc: i32) -> (r: Option<Direction>)
    ensures
        r == direction_of_delta(dr as int, dc as int),
{
    match (dr, dc) {
        (-1, 0) => Some(Direction::Forward),
        (1, 0) => Some(Direction::Backward),
        (0, -1) => Some(Direction::Left),
        (0, 1) => Some(Direction::Right),
        (-1, -1) => Some(Direction::ForwardLeft),
        (-1, 1) => Some(Direction::ForwardRight),
        (1, -1) => Some(Direction::BackwardLeft),
        (1, 1) => Some(Direction::BackwardRight),
        _ => None,
    }
}

impl Direction {
    /// The direction rotated by a half turn: forward and backward swap, left
    /// and right swap.
    pub fn reversed(&self) -> (r: Direction)
        ensures
            base_step(r).0 == -base_step(*self).0,
            base_step(r).1 == -base_step(*self).1,
    {
        match self {
            Direction::Forward => Direction::Backward,
            Direction::Backward => Direction::Forward,
            Direction::Left => Direction::Right,
            Direction::Right => Direction::Left,
            Direction::ForwardLeft => Direction::BackwardRight,
            Direction::ForwardRight => Direction::BackwardLeft,
            Direction::BackwardLeft => Direction::ForwardRight,
            Direction::BackwardRight => Direction::ForwardLeft,
        }
    }

    /// The cell one step in this direction from `index`, seen from `owner`'s
    /// side, or `None` when that step leaves the board.
    pub fn next_index(&self, owner: Player, index: (usize, usize)) -> (r: Option<(usize, usize)>)
        requires
            cell_in_bounds(index.0 as int, index.1 as int),
        ensures
            r is Some <==> cell_in_bounds(
                index.0 + step_of(*self, owner).0,
                index.1 + step_of(*self, owner).1,
            ),
            r matches Some(t) ==> {
                &&& t.0 == index.0 + step_of(*self, owner).0
                &&& t.1 == index.1 + step_of(*self, owner).1
            },
    {
        let (base_dr, base_dc): (i32, i32) = match self {
            Direction::Forward => (-1, 0),
            Direction::Backward => (1, 0),
            Direction::Left => (0, -1),
            Direction::Right => (0, 1),
            Direction::ForwardLeft => (-1, -1),
            Direction::ForwardRight => (-1, 1),
            Direction::BackwardLeft => (1, -1),
            Direction::BackwardRight => (1, 1),
        };
        let dr: i32 = match owner {
            Player::First => base_dr,
            Player::Second => -base_dr,
        };
        let row: i32 = index.0 as i32 + dr;
        let col: i32 = index.1 as i32 + base_dc;
        if row < 0 || row > 3 || col < 0 || col > 2 {
            None
        } else {
            Some((row as usize, col as usize))
        }
    }
}

} // verus!
