//! The rules engine: validates and executes move and drop commands against
//! the board, the pools and the turn counter, and evaluates the winner.

use vstd::prelude::*;

use crate::board::canonical_board;
use crate::board::cell_at;
use crate::board::cell_index;
use crate::board::cell_threatened_by;
use crate::board::count_occupied;
use crate::board::count_owned;
use crate::board::legal_destination;
use crate::board::lemma_count_owned_update;
use crate::board::owner_weight;
use crate::board::Board;
use crate::geometry::back_rank;
use crate::geometry::cell_in_bounds;
use crate::geometry::opponent;
use crate::geometry::Player;
use crate::piece::promoted;
use crate::piece::Piece;
use crate::piece::PieceKind;
use crate::pool::Pools;
use crate::turn::advanced;
use crate::turn::TurnCounter;

verus! {

/// Why a command was rejected.  A rejected command leaves the whole game
/// state unchanged.
#[derive(Clone, Copy, PartialEq, Eq, Structural, Debug)]
pub enum RuleError {
    /// The command text is not a run of ASCII digits of length 3 or 4.
    MalformedCommand,
    /// A referenced board cell lies outside the 4-row, 3-column board.
    OutOfBounds,
    /// The origin cell of a move is empty.
    NoPiece,
    /// The origin cell of a move holds the opponent's piece.
    NotYourPiece,
    /// The target cell of a drop already holds a piece.
    CellOccupied,
    /// The target cell is not among the moved piece's legal destinations.
    IllegalMove,
    /// The pool index of a drop is outside the active player's pool.
    InvalidPoolIndex,
}

/// What a successful command did: a move, telling whether it captured and
/// whether it newly promoted the moved piece, or a drop.
#[derive(Clone, Copy, PartialEq, Eq, Structural, Debug)]
pub enum Message {
    Moved { captured: bool, promoted: bool },
    Dropped,
}

/// Whether a piece promotes on landing: only a Chick-line piece, and only on
/// the active player's goal rank.
pub open spec fn promotes(p: Piece, to: (int, int), active: Player) -> bool {
    p.kind == PieceKind::Chicken && to.0 == back_rank(active)
}

/// The piece as it stands after landing on `to`: promoted when a Chick-line
/// piece lands on the goal rank, unchanged otherwise.
pub open spec fn landed_piece(p: Piece, to: (int, int), active: Player) -> Piece {
    if promotes(p, to, active) {
        promoted(p)
    } else {
        p
    }
}

/// The board after a move from `from` to `to` by `active`: the source cell
/// empties and the destination receives the moved piece, promoted when it
/// promotes on landing.
pub open spec fn board_after_move(
    b: Seq<Option<Piece>>,
    from: (int, int),
    to: (int, int),
    active: Player,
) -> Seq<Option<Piece>> {
    match cell_at(b, from.0, from.1) {
        Some(p) => b.update(cell_index(from.0, from.1), None).update(
            cell_index(to.0, to.1),
            Some(landed_piece(p, to, active)),
        ),
        None => b,
    }
}

/// Whether `pl` has a Lion on its goal rank that no enemy piece threatens.
pub open spec fn rank_win(b: Seq<Option<Piece>>, pl: Player) -> bool {
    exists|col: int|
        0 <= col < 3 && (match #[trigger] cell_at(b, back_rank(pl), col) {
            Some(p) => p.kind == PieceKind::Lion && p.owner == pl,
            None => false,
        }) && !cell_threatened_by(b, (back_rank(pl), col), opponent(pl))
}

/// Whether `c` is an ASCII digit.
pub open spec fn is_digit(c: char) -> bool {
    '0' as u32 <= c as u32 <= '9' as u32
}

/// The value of an ASCII digit.
pub open spec fn digit_of(c: char) -> int {
    c as u32 - '0' as u32
}

/// Whether `s` is a well-formed command: a run of ASCII digits, 3 of them for
/// a drop and 4 for a move.
pub open spec fn command_ok(s: Seq<char>) -> bool {
    (s.len() == 3 || s.len() == 4) && (forall|i: int| 0 <= i < s.len() ==> is_digit(#[trigger] s[i]))
}

/// The rules engine: the turn counter, the board and the two pools, advanced
/// one validated command at a time.
#[derive(Clone, Debug)]
pub struct AnimalShogiMaster {
    pub counter: TurnCounter,
    pub board: Board,
    pub pools: Pools,
}

/// Whether two engine states agree on everything observable: the board, both
/// pools and the turn counter.
pub open spec fn same_game_state(a: AnimalShogiMaster, b: AnimalShogiMaster) -> bool {
    &&& a.board@ == b.board@
    &&& a.pools.pool_view(Player::First) == b.pools.pool_view(Player::First)
    &&& a.pools.pool_view(Player::Second) == b.pools.pool_view(Player::Second)
    &&& a.counter == b.counter
}

/// How a move turned out, and how the state changed, as one relation; see
/// [`AnimalShogiMaster::move_piece_from_to`].
pub open spec fn move_post(
    pre: AnimalShogiMaster,
    post: AnimalShogiMaster,
    from: (int, int),
    to: (int, int),
) -> bool {
    match pre.move_check(from, to) {
        Some(_) => same_game_state(pre, post),
        None => match cell_at(pre.board@, from.0, from.1) {
            Some(p) => {
                let active = pre.counter.player;
                &&& post.board@ == board_after_move(pre.board@, from, to, active)
                &&& forall|row: int, col: int|
                    cell_in_bounds(row, col) && (row, col) != from && (row, col) != to
                        ==> #[trigger] cell_at(post.board@, row, col) == cell_at(
                        pre.board@,
                        row,
                        col,
                    )
                &&& match cell_at(pre.board@, to.0, to.1) {
                    Some(q) => {
                        &&& post.pools.pool_view(active) == pre.pools.pool_view(active).push(
                            q.kind,
                        )
                        &&& count_owned(post.board@, opponent(active)) == count_owned(
                            pre.board@,
                            opponent(active),
                        ) - 1
                    },
                    None => post.pools.pool_view(active) == pre.pools.pool_view(active),
                }
                &&& post.pools.pool_view(opponent(active)) == pre.pools.pool_view(
                    opponent(active),
                )
                &&& post.counter == advanced(pre.counter)
                &&& pre.total_pieces() == post.total_pieces()
            },
            None => false,
        },
    }
}

/// How a drop turned out, and how the state changed, as one relation; see
/// [`AnimalShogiMaster::drop_piece_to`].
pub open spec fn drop_post(
    pre: AnimalShogiMaster,
    post: AnimalShogiMaster,
    index: int,
    to: (int, int),
) -> bool {
    match pre.drop_check(index, to) {
        Some(_) => same_game_state(pre, post),
        None => {
            let active = pre.counter.player;
            let kind = pre.pools.pool_view(active)[index];
            &&& post.board@ == pre.board@.update(
                cell_index(to.0, to.1),
                Some((Piece { kind, is_promoted: false, owner: active })),
            )
            &&& post.pools.pool_view(active) == pre.pools.pool_view(active).remove(index)
            &&& post.pools.pool_view(active).len() == pre.pools.pool_view(active).len() - 1
            &&& post.pools.pool_view(opponent(active)) == pre.pools.pool_view(opponent(active))
            &&& count_occupied(post.board@) == count_occupied(pre.board@) + 1
            &&& post.counter == advanced(pre.counter)
            &&& pre.total_pieces() == post.total_pieces()
        },
    }
}

impl AnimalShogiMaster {
    /// Well-formedness: the board covers exactly the 12 cells.
    pub open spec fn wf(&self) -> bool {
        self.board.wf()
    }

    /// The number of pieces in the whole game: on the board and in both
    /// pools.  No command ever changes it.
    pub open spec fn total_pieces(&self) -> int {
        count_occupied(self.board@) + self.pools.pool_view(Player::First).len()
            + self.pools.pool_view(Player::Second).len()
    }

    /// The first rule a move from `from` to `to` would break, or `None` for a
    /// legal move: the cells must lie on the board, the origin must hold a
    /// piece of the active player, and the destination must be among that
    /// piece's legal destinations.
    pub open spec fn move_check(&self, from: (int, int), to: (int, int)) -> Option<RuleError> {
        if !(cell_in_bounds(from.0, from.1) && cell_in_bounds(to.0, to.1)) {
            Some(RuleError::OutOfBounds)
        } else {
            match cell_at(self.board@, from.0, from.1) {
                None => Some(RuleError::NoPiece),
                Some(p) => if p.owner != self.counter.player {
                    Some(RuleError::NotYourPiece)
                } else if !legal_destination(self.board@, from, to) {
                    Some(RuleError::IllegalMove)
                } else {
                    None
                },
            }
        }
    }

    /// What a move from `from` to `to` returns: the error
    /// [`move_check`](Self::move_check) finds, or a [`Message::Moved`] that
    /// tells whether a piece was captured and whether the moved piece was
    /// newly promoted.
    pub open spec fn move_outcome(&self, from: (int, int), to: (int, int)) -> Result<
        Message,
        RuleError,
    > {
        match self.move_check(from, to) {
            Some(e) => Err(e),
            None => match cell_at(self.board@, from.0, from.1) {
                Some(p) => Ok(
                    Message::Moved {
                        captured: cell_at(self.board@, to.0, to.1) is Some,
                        promoted: promotes(p, to, self.counter.player) && !p.is_promoted,
                    },
                ),
                None => Err(RuleError::NoPiece),
            },
        }
    }

    /// The first rule a drop of pool entry `index` onto `to` would break, or
    /// `None` for a legal drop: the cell must lie on the board and be empty,
    /// and the index must lie in the active player's pool.
    pub open spec fn drop_check(&self, index: int, to: (int, int)) -> Option<RuleError> {
        if !cell_in_bounds(to.0, to.1) {
            Some(RuleError::OutOfBounds)
        } else if cell_at(self.board@, to.0, to.1) is Some {
            Some(RuleError::CellOccupied)
        } else if index >= self.pools.pool_view(self.counter.player).len() {
            Some(RuleError::InvalidPoolIndex)
        } else {
            None
        }
    }

    /// What a drop returns: the error [`drop_check`](Self::drop_check) finds,
    /// or [`Message::Dropped`].
    pub open spec fn drop_outcome(&self, index: int, to: (int, int)) -> Result<Message, RuleError> {
        match self.drop_check(index, to) {
            Some(e) => Err(e),
            None => Ok(Message::Dropped),
        }
    }

    /// The winner, if the game is over: a player holding the opponent's Lion
    /// in its pool wins at once; failing that, a player whose Lion stands on
    /// the opponent's back rank with no enemy piece threatening that cell
    /// wins.  `First` is checked before `Second` at each stage.
    pub open spec fn winner_spec(&self) -> Option<Player> {
        if self.pools.pool_view(Player::First).contains(PieceKind::Lion) {
            Some(Player::First)
        } else if self.pools.pool_view(Player::Second).contains(PieceKind::Lion) {
            Some(Player::Second)
        } else if rank_win(self.board@, Player::First) {
            Some(Player::First)
        } else if rank_win(self.board@, Player::Second) {
            Some(Player::Second)
        } else {
            None
        }
    }

    /// Validates and executes a move of the active player's piece from `from`
    /// to `to`.
    ///
    /// Either the move breaks a rule, and the error says which while the
    /// whole state stays unchanged, or it is executed atomically: the piece
    /// relocates (promoted in place when a Chick-line piece lands on the goal
    /// rank), a captured enemy piece enters the mover's pool demoted, and the
    /// turn advances.  Exactly the source and destination cells change, and
    /// the total piece count is conserved.
    pub fn move_piece_from_to(&mut self, from: (usize, usize), to: (usize, usize)) -> (r: Result<
        Message,
        RuleError,
    >)
        requires
            old(self).wf(),
            old(self).counter.player is Second ==> old(self).counter.count < u32::MAX,
        ensures
            final(self).wf(),
            r == old(self).move_outcome(
                (from.0 as int, from.1 as int),
                (to.0 as int, to.1 as int),
            ),
            move_post(
                *old(self),
                *final(self),
                (from.0 as int, from.1 as int),
                (to.0 as int, to.1 as int),
            ),
    {
        let ghost pre = *self;
        let ghost fromi = (from.0 as int, from.1 as int);
        let ghost toi = (to.0 as int, to.1 as int);
        let active = self.counter.player;
        if !(Board::validate_index(from) && Board::validate_index(to)) {
            return Err(RuleError::OutOfBounds);
        }
        let mover = match self.board.get_cell_at(from) {
            None => {
                return Err(RuleError::NoPiece);
            },
            Some(p) => {
                if !p.is_owned_by(active) {
                    return Err(RuleError::NotYourPiece);
                }
                p
            },
        };
        if !self.board.is_legal_destination(from, to) {
            return Err(RuleError::IllegalMove);
        }
        proof {
            // A legal destination is never the origin itself: the zero
            // displacement maps to no direction.
            assert(from != to);
        }
        let taken = self.board.move_piece_from_to(from, to);
        let captured = match taken {
            Some(q) => {
                self.pools.add(active, q);
                true
            },
            None => false,
        };
        let goal: usize = match active {
            Player::First => 0,
            Player::Second => 3,
        };
        let newly_promoted = mover.is_kind_of(PieceKind::Chicken) && to.0 == goal
            && !mover.is_promoted;
        if mover.is_kind_of(PieceKind::Chicken) && to.0 == goal {
            self.board.evolve_at(to);
        }
        self.counter.advance();
        proof {
            let fi = cell_index(fromi.0, fromi.1);
            let ti = cell_index(toi.0, toi.1);
            assert(self.board@ =~= board_after_move(pre.board@, fromi, toi, active));
            let b0 = pre.board@;
            let b1 = b0.update(fi, None);
            let land = landed_piece(mover, toi, active);
            lemma_count_owned_update(b0, Player::First, fi, None);
            lemma_count_owned_update(b0, Player::Second, fi, None);
            lemma_count_owned_update(b1, Player::First, ti, Some(land));
            lemma_count_owned_update(b1, Player::Second, ti, Some(land));
            assert(b1[ti] == b0[ti]);
            assert(owner_weight(Some(land), active) == owner_weight(Some(mover), active));
        }
        if captured {
            Ok(Message::Moved { captured: true, promoted: newly_promoted })
        } else {
            Ok(Message::Moved { captured: false, promoted: newly_promoted })
        }
    }

    /// Validates and executes a drop of the active player's pool entry
    /// `index` onto the empty cell `to`.
    ///
    /// Either the drop breaks a rule, and the error says which while the
    /// whole state stays unchanged, or the piece leaves the pool, lands on
    /// the board demoted, and the turn advances.  The pool shrinks by one,
    /// the occupied cells grow by one, and the total piece count is
    /// conserved.
    pub fn drop_piece_to(&mut self, index: usize, to: (usize, usize)) -> (r: Result<
        Message,
        RuleError,
    >)
        requires
            old(self).wf(),
            old(self).counter.player is Second ==> old(self).counter.count < u32::MAX,
        ensures
            final(self).wf(),
            r == old(self).drop_outcome(index as int, (to.0 as int, to.1 as int)),
            drop_post(*old(self), *final(self), index as int, (to.0 as int, to.1 as int)),
    {
        let ghost pre = *self;
        let ghost toi = (to.0 as int, to.1 as int);
        let active = self.counter.player;
        if !Board::validate_index(to) {
            return Err(RuleError::OutOfBounds);
        }
        if let Some(_) = self.board.get_cell_at(to) {
            return Err(RuleError::CellOccupied);
        }
        let piece = match self.pools.remove(active, index) {
            None => {
                return Err(RuleError::InvalidPoolIndex);
            },
            Some(piece) => piece,
        };
        self.board.set_piece_at(piece, to);
        self.counter.advance();
        proof {
            let ti = cell_index(toi.0, toi.1);
            lemma_count_owned_update(pre.board@, Player::First, ti, Some(piece));
            lemma_count_owned_update(pre.board@, Player::Second, ti, Some(piece));
        }
        Ok(Message::Dropped)
    }

    /// The winner, if the game is over; see
    /// [`winner_spec`](Self::winner_spec).
    pub fn get_winner(&self) -> (r: Option<Player>)
        requires
            self.wf(),
        ensures
            r == self.winner_spec(),
    {
        if self.pools.contains(Player::First, PieceKind::Lion) {
            return Some(Player::First);
        }
        if self.pools.contains(Player::Second, PieceKind::Lion) {
            return Some(Player::Second);
        }
        if self.has_safe_goal_lion(Player::First) {
            return Some(Player::First);
        }
        if self.has_safe_goal_lion(Player::Second) {
            return Some(Player::Second);
        }
        None
    }

    /// Whether `pl` has a Lion on its goal rank that no enemy piece
    /// threatens.
    fn has_safe_goal_lion(&self, pl: Player) -> (r: bool)
        requires
            self.wf(),
        ensures
            r == rank_win(self.board@, pl),
    {
        let goal: usize = match pl {
            Player::First => 0,
            Player::Second => 3,
        };
        let mut col: usize = 0;
        while col < 3
            invariant
                self.wf(),
                goal == back_rank(pl),
                col <= 3,
                forall|c: int|
                    0 <= c < col ==> !((match #[trigger] cell_at(self.board@, back_rank(pl), c) {
                        Some(p) => p.kind == PieceKind::Lion && p.owner == pl,
                        None => false,
                    }) && !cell_threatened_by(self.board@, (back_rank(pl), c), opponent(pl))),
            decreases 3 - col,
        {
            let lion_here = match self.board.get_cell_at((goal, col)) {
                Some(p) => p.is_kind_of(PieceKind::Lion) && p.is_owned_by(pl),
                None => false,
            };
            if lion_here {
                let attacker = match pl {
                    Player::First => Player::Second,
                    Player::Second => Player::First,
                };
                if !self.board.is_cell_threatened_by((goal, col), attacker) {
                    return true;
                }
            }
            col = col + 1;
        }
        false
    }

    /// Parses and executes one text command: 3 digits drop pool entry `d0`
    /// onto cell `(d1, d2)`, 4 digits move the piece on `(d0, d1)` to
    /// `(d2, d3)`.  Any other text is rejected as
    /// [`RuleError::MalformedCommand`] with the state unchanged.
    pub fn execute_command(&mut self, command: &str) -> (r: Result<Message, RuleError>)
        requires
            old(self).wf(),
            old(self).counter.player is Second ==> old(self).counter.count < u32::MAX,
        ensures
            final(self).wf(),
            !command_ok(command@) ==> r == Err::<Message, RuleError>(RuleError::MalformedCommand)
                && same_game_state(*old(self), *final(self)),
            command_ok(command@) && command@.len() == 3 ==> {
                &&& r == old(self).drop_outcome(
                    digit_of(command@[0]),
                    (digit_of(command@[1]), digit_of(command@[2])),
                )
                &&& drop_post(
                    *old(self),
                    *final(self),
                    digit_of(command@[0]),
                    (digit_of(command@[1]), digit_of(command@[2])),
                )
            },
            command_ok(command@) && command@.len() == 4 ==> {
                &&& r == old(self).move_outcome(
                    (digit_of(command@[0]), digit_of(command@[1])),
                    (digit_of(command@[2]), digit_of(command@[3])),
                )
                &&& move_post(
                    *old(self),
                    *final(self),
                    (digit_of(command@[0]), digit_of(command@[1])),
                    (digit_of(command@[2]), digit_of(command@[3])),
                )
            },
    {
        let n = command.unicode_len();
        if n != 3 && n != 4 {
            return Err(RuleError::MalformedCommand);
        }
        let mut nums: Vec<usize> = Vec::new();
        let mut i: usize = 0;
        while i < n
            invariant
                *self == *old(self),
                self.wf(),
                n == command@.len(),
                n == 3 || n == 4,
                i <= n,
                nums@.len() == i,
                forall|j: int| 0 <= j < i ==> is_digit(command@[j]),
                forall|j: int| 0 <= j < i ==> nums@[j] == digit_of(command@[j]),
            decreases n - i,
        {
            let c = command.get_char(i);
            let v = c as u32;
            if v < 48 || v > 57 {
                return Err(RuleError::MalformedCommand);
            }
            nums.push((v - 48) as usize);
            i = i + 1;
        }
        if n == 3 {
            self.drop_piece_to(nums[0], (nums[1], nums[2]))
        } else {
            self.move_piece_from_to((nums[0], nums[1]), (nums[2], nums[3]))
        }
    }
}

impl Default for AnimalShogiMaster {
    /// A fresh game: the canonical opening position, empty pools, move 1 and
    /// `First` to play.
    fn default() -> (r: AnimalShogiMaster)
        ensures
            r.wf(),
            r.board@ == canonical_board(),
            r.pools.pool_view(Player::First).len() == 0,
            r.pools.pool_view(Player::Second).len() == 0,
            r.counter == (TurnCounter { count: 1, player: Player::First }),
    {
        AnimalShogiMaster {
            counter: TurnCounter::default(),
            board: Board::default(),
            pools: Pools::default(),
        }
    }
}

} // verus!
