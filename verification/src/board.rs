//! The 4-row, 3-column board: placement, relocation, legality of moves and
//! threat queries.

use vstd::prelude::*;

use crate::geometry::cell_in_bounds;
use crate::geometry::Player;
use crate::piece::face_char;
use crate::piece::piece_of_char;
use crate::piece::piece_reach;
use crate::piece::promoted;
use crate::piece::Piece;

verus! {

/// Rejection of a board-layout string that is not four three-character rows,
/// each terminated by a semicolon.
#[derive(Clone, Copy, PartialEq, Eq, Structural, Debug)]
pub struct ParseBoardError;

/// The position of cell `(row, col)` in the flat, row-major cell sequence.
pub open spec fn cell_index(row: int, col: int) -> int {
    row * 3 + col
}

/// The contents of cell `(row, col)` of the flat cell sequence `b`.
pub open spec fn cell_at(b: Seq<Option<Piece>>, row: int, col: int) -> Option<Piece> {
    b[cell_index(row, col)]
}

/// Whether `to` is a legal destination for the piece standing on `from`: both
/// cells lie on the board, `from` is occupied, the displacement is a single
/// step the piece's face allows in its owner's frame, and `to` does not hold a
/// piece of the same owner.  Capture is implicit: a cell holding an enemy
/// piece is a legal destination.
pub open spec fn legal_destination(b: Seq<Option<Piece>>, from: (int, int), to: (int, int)) -> bool {
    &&& cell_in_bounds(from.0, from.1)
    &&& cell_in_bounds(to.0, to.1)
    &&& match cell_at(b, from.0, from.1) {
        Some(p) => piece_reach(p, from, to) && match cell_at(b, to.0, to.1) {
            Some(q) => q.owner != p.owner,
            None => true,
        },
        None => false,
    }
}

/// Whether some piece of `attacker` has `cell` among its legal destinations.
pub open spec fn cell_threatened_by(b: Seq<Option<Piece>>, cell: (int, int), attacker: Player) -> bool {
    exists|src: (int, int)|
        #[trigger] legal_destination(b, src, cell) && match cell_at(b, src.0, src.1) {
            Some(p) => p.owner == attacker,
            None => false,
        }
}

/// 1 for a cell holding a piece of `pl`, 0 otherwise.
pub open spec fn owner_weight(c: Option<Piece>, pl: Player) -> int {
    match c {
        Some(p) => if p.owner == pl {
            1int
        } else {
            0int
        },
        None => 0int,
    }
}

/// How many cells of `b` hold a piece of `pl`.
pub open spec fn count_owned(b: Seq<Option<Piece>>, pl: Player) -> int
    decreases b.len(),
{
    if b.len() == 0 {
        0
    } else {
        count_owned(b.drop_last(), pl) + owner_weight(b.last(), pl)
    }
}

/// How many cells of `b` hold a piece: every piece on the board belongs to
/// one of the two players.
pub open spec fn count_occupied(b: Seq<Option<Piece>>) -> int {
    count_owned(b, Player::First) + count_owned(b, Player::Second)
}

/// Replacing the contents of one cell changes a player's piece count by the
/// difference of the two cells' weights.
pub proof fn lemma_count_owned_update(b: Seq<Option<Piece>>, pl: Player, i: int, v: Option<Piece>)
    requires
        0 <= i < b.len(),
    ensures
        count_owned(b.update(i, v), pl) == count_owned(b, pl) - owner_weight(b[i], pl)
            + owner_weight(v, pl),
    decreases b.len(),
{
    let bu = b.update(i, v);
    if i == b.len() - 1 {
        assert(bu.drop_last() =~= b.drop_last());
        assert(bu.last() == v);
    } else {
        assert(bu.drop_last() =~= b.drop_last().update(i, v));
        assert(bu.last() == b.last());
        lemma_count_owned_update(b.drop_last(), pl, i, v);
    }
}

/// Whether two cells are distinct and at most one step apart on each axis.
pub open spec fn adjacent(a: (int, int), b: (int, int)) -> bool {
    &&& a != b
    &&& -1 <= b.0 - a.0 <= 1
    &&& -1 <= b.1 - a.1 <= 1
}

/// Whether `s` is a well-formed board-layout string: exactly four rows of
/// three cell characters, each row terminated by a semicolon.
pub open spec fn layout_ok(s: Seq<char>) -> bool {
    &&& s.len() == 16
    &&& forall|i: int| 0 <= i < 16 ==> ((#[trigger] s[i] == ';') <==> i % 4 == 3)
}

/// The board-layout character of a cell: the piece's face character, or `-`
/// for an empty cell.
pub open spec fn char_of_cell(c: Option<Piece>) -> char {
    match c {
        Some(p) => face_char(p),
        None => '-',
    }
}

/// The board-layout string of a board: four rows of three cell characters,
/// each row terminated by a semicolon.
pub open spec fn layout_of(b: Seq<Option<Piece>>) -> Seq<char> {
    Seq::new(
        16,
        |i: int|
            if i % 4 == 3 {
                ';'
            } else {
                char_of_cell(b[(i / 4) * 3 + i % 4])
            },
    )
}

/// The canonical opening position, `gle;-c-;-C-;ELG;`: each player's Giraffe,
/// Lion and Elephant on their back rank and their Chick one row ahead of the
/// middle.
pub open spec fn canonical_board() -> Seq<Option<Piece>> {
    seq![
        piece_of_char('g'),
        piece_of_char('l'),
        piece_of_char('e'),
        None,
        piece_of_char('c'),
        None,
        None,
        piece_of_char('C'),
        None,
        piece_of_char('E'),
        piece_of_char('L'),
        piece_of_char('G'),
    ]
}

/// The board: 12 cells in row-major order, each empty or holding one piece.
#[derive(Clone, Debug)]
pub struct Board {
    cells: Vec<Option<Piece>>,
}

impl View for Board {
    type V = Seq<Option<Piece>>;

    closed spec fn view(&self) -> Seq<Option<Piece>> {
        self.cells@
    }
}

impl Board {
    /// Well-formedness: the flat cell sequence covers exactly the 12 cells.
    pub open spec fn wf(&self) -> bool {
        self@.len() == 12
    }

    /// Whether `index` lies on the 4-row, 3-column board.
    pub fn validate_index(index: (usize, usize)) -> (r: bool)
        ensures
            r == cell_in_bounds(index.0 as int, index.1 as int),
    {
        index.0 <= 3 && index.1 <= 2
    }

    /// The contents of the cell at `xy`.
    pub fn get_cell_at(&self, xy: (usize, usize)) -> (r: Option<Piece>)
        requires
            self.wf(),
            cell_in_bounds(xy.0 as int, xy.1 as int),
        ensures
            r == cell_at(self@, xy.0 as int, xy.1 as int),
    {
        self.cells[xy.0 * 3 + xy.1]
    }

    /// The owner of the piece at `index`, or `None` for an empty cell.
    pub fn owner_of(&self, index: (usize, usize)) -> (r: Option<Player>)
        requires
            self.wf(),
            cell_in_bounds(index.0 as int, index.1 as int),
        ensures
            r == match cell_at(self@, index.0 as int, index.1 as int) {
                Some(p) => Some(p.owner),
                None => None::<Player>,
            },
    {
        match self.cells[index.0 * 3 + index.1] {
            Some(p) => Some(p.owner),
            None => None,
        }
    }

    /// Puts `piece` on the cell at `xy`, replacing whatever stood there.
    pub fn set_piece_at(&mut self, piece: Piece, xy: (usize, usize))
        requires
            old(self).wf(),
            cell_in_bounds(xy.0 as int, xy.1 as int),
        ensures
            final(self).wf(),
            final(self)@ == old(self)@.update(cell_index(xy.0 as int, xy.1 as int), Some(piece)),
    {
        self.cells.set(xy.0 * 3 + xy.1, Some(piece));
    }

    /// Relocates whatever stands on `from` to `to`, unconditionally: `from`
    /// becomes empty, `to` receives `from`'s old contents, and whatever stood
    /// on `to` is returned.  Legality is the caller's responsibility.
    pub fn move_piece_from_to(&mut self, from: (usize, usize), to: (usize, usize)) -> (r: Option<
        Piece,
    >)
        requires
            old(self).wf(),
            cell_in_bounds(from.0 as int, from.1 as int),
            cell_in_bounds(to.0 as int, to.1 as int),
            from != to,
        ensures
            final(self).wf(),
            final(self)@ == old(self)@.update(
                cell_index(from.0 as int, from.1 as int),
                None,
            ).update(
                cell_index(to.0 as int, to.1 as int),
                cell_at(old(self)@, from.0 as int, from.1 as int),
            ),
            r == cell_at(old(self)@, to.0 as int, to.1 as int),
    {
        let moved = self.cells[from.0 * 3 + from.1];
        let taken = self.cells[to.0 * 3 + to.1];
        self.cells.set(from.0 * 3 + from.1, None);
        self.cells.set(to.0 * 3 + to.1, moved);
        taken
    }

    /// Promotes the piece at `index` in place.  Returns `false`, changing
    /// nothing, when the cell is empty.
    pub fn evolve_at(&mut self, index: (usize, usize)) -> (r: bool)
        requires
            old(self).wf(),
            cell_in_bounds(index.0 as int, index.1 as int),
        ensures
            final(self).wf(),
            r == (cell_at(old(self)@, index.0 as int, index.1 as int) is Some),
            match cell_at(old(self)@, index.0 as int, index.1 as int) {
                Some(p) => final(self)@ == old(self)@.update(
                    cell_index(index.0 as int, index.1 as int),
                    Some(promoted(p)),
                ),
                None => final(self)@ == old(self)@,
            },
    {
        match self.cells[index.0 * 3 + index.1] {
            Some(mut p) => {
                p.promote();
                self.cells.set(index.0 * 3 + index.1, Some(p));
                true
            },
            None => false,
        }
    }

    /// Whether the piece standing on `from` may be moved onto `to`.
    pub fn is_legal_destination(&self, from: (usize, usize), to: (usize, usize)) -> (r: bool)
        requires
            self.wf(),
            cell_in_bounds(from.0 as int, from.1 as int),
            cell_in_bounds(to.0 as int, to.1 as int),
        ensures
            r == legal_destination(self@, (from.0 as int, from.1 as int), (to.0 as int, to.1 as int)),
    {
        match self.cells[from.0 * 3 + from.1] {
            None => false,
            Some(p) => {
                if !p.can_move_from_to(from, to) {
                    false
                } else {
                    match self.cells[to.0 * 3 + to.1] {
                        Some(q) => q.owner != p.owner,
                        None => true,
                    }
                }
            },
        }
    }

    /// The set of legal destinations of the piece standing on `index`, as a
    /// vector of cells; empty when the cell is empty.
    pub fn possible_next_of(&self, index: (usize, usize)) -> (r: Vec<(usize, usize)>)
        requires
            self.wf(),
            cell_in_bounds(index.0 as int, index.1 as int),
        ensures
            forall|t: (usize, usize)| #[trigger]
                r@.contains(t) <==> legal_destination(
                    self@,
                    (index.0 as int, index.1 as int),
                    (t.0 as int, t.1 as int),
                ),
    {
        let mut r: Vec<(usize, usize)> = Vec::new();
        let mut k: usize = 0;
        while k < 12
            invariant
                self.wf(),
                cell_in_bounds(index.0 as int, index.1 as int),
                k <= 12,
                forall|t: (usize, usize)| #[trigger]
                    r@.contains(t) <==> (t.0 * 3 + t.1 < k && cell_in_bounds(t.0 as int, t.1 as int)
                        && legal_destination(
                        self@,
                        (index.0 as int, index.1 as int),
                        (t.0 as int, t.1 as int),
                    )),
            decreases 12 - k,
        {
            let to = (k / 3, k % 3);
            if self.is_legal_destination(index, to) {
                let ghost old_r = r@;
                r.push(to);
                assert(forall|t: (usize, usize)| #[trigger] r@.contains(t) <==> (old_r.contains(t)
                    || t == to)) by {
                    assert(forall|t: (usize, usize)| old_r.contains(t) ==> #[trigger] r@.contains(
                        t,
                    )) by {
                        assert(forall|i: int| 0 <= i < old_r.len() ==> r@[i] == old_r[i]);
                    }
                    assert(r@[r@.len() - 1] == to);
                }
            }
            k = k + 1;
        }
        r
    }

    /// Whether some piece of `attacker` has the cell at `cell` among its
    /// legal destinations, by a scan of the whole board.
    pub fn is_cell_threatened_by(&self, cell: (usize, usize), attacker: Player) -> (r: bool)
        requires
            self.wf(),
            cell_in_bounds(cell.0 as int, cell.1 as int),
        ensures
            r == cell_threatened_by(self@, (cell.0 as int, cell.1 as int), attacker),
    {
        let mut k: usize = 0;
        while k < 12
            invariant
                self.wf(),
                cell_in_bounds(cell.0 as int, cell.1 as int),
                k <= 12,
                forall|src: (int, int)|
                    (0 <= src.0 < 4 && 0 <= src.1 < 3 && src.0 * 3 + src.1 < k) ==> !(
                    #[trigger] legal_destination(self@, src, (cell.0 as int, cell.1 as int))
                        && match cell_at(self@, src.0, src.1) {
                        Some(p) => p.owner == attacker,
                        None => false,
                    }),
            decreases 12 - k,
        {
            let src = (k / 3, k % 3);
            let threatens = match self.cells[k] {
                Some(p) => p.owner == attacker && self.is_legal_destination(src, cell),
                None => false,
            };
            if threatens {
                assert(cell_threatened_by(self@, (cell.0 as int, cell.1 as int), attacker)) by {
                    assert(legal_destination(
                        self@,
                        (src.0 as int, src.1 as int),
                        (cell.0 as int, cell.1 as int),
                    ));
                }
                return true;
            }
            k = k + 1;
        }
        assert(!cell_threatened_by(self@, (cell.0 as int, cell.1 as int), attacker)) by {
            assert(forall|src: (int, int)| #[trigger] legal_destination(
                self@,
                src,
                (cell.0 as int, cell.1 as int),
            ) ==> 0 <= src.0 < 4 && 0 <= src.1 < 3 && src.0 * 3 + src.1 < 12);
        }
        false
    }

    /// The cells adjacent to `xy`: every in-bounds cell, other than `xy`
    /// itself, at most one step away on each axis.
    pub fn get_cells_around(&self, xy: (usize, usize)) -> (r: Vec<(usize, usize)>)
        requires
            cell_in_bounds(xy.0 as int, xy.1 as int),
        ensures
            forall|t: (usize, usize)| #[trigger]
                r@.contains(t) <==> (cell_in_bounds(t.0 as int, t.1 as int) && adjacent(
                    (xy.0 as int, xy.1 as int),
                    (t.0 as int, t.1 as int),
                )),
    {
        let mut r: Vec<(usize, usize)> = Vec::new();
        let mut k: usize = 0;
        while k < 12
            invariant
                cell_in_bounds(xy.0 as int, xy.1 as int),
                k <= 12,
                forall|t: (usize, usize)| #[trigger]
                    r@.contains(t) <==> (t.0 * 3 + t.1 < k && cell_in_bounds(
                        t.0 as int,
                        t.1 as int,
                    ) && adjacent((xy.0 as int, xy.1 as int), (t.0 as int, t.1 as int))),
            decreases 12 - k,
        {
            let t = (k / 3, k % 3);
            let near_row = t.0 + 1 >= xy.0 && t.0 <= xy.0 + 1;
            let near_col = t.1 + 1 >= xy.1 && t.1 <= xy.1 + 1;
            if near_row && near_col && !(t.0 == xy.0 && t.1 == xy.1) {
                let ghost old_r = r@;
                r.push(t);
                assert(forall|u: (usize, usize)| #[trigger] r@.contains(u) <==> (old_r.contains(u)
                    || u == t)) by {
                    assert(forall|u: (usize, usize)| old_r.contains(u) ==> #[trigger] r@.contains(
                        u,
                    )) by {
                        assert(forall|i: int| 0 <= i < old_r.len() ==> r@[i] == old_r[i]);
                    }
                    assert(r@[r@.len() - 1] == t);
                }
            }
            k = k + 1;
        }
        r
    }

    /// The board-layout string of this board, four semicolon-terminated rows
    /// of three cell characters (the canonical opening prints as
    /// `gle;-c-;-C-;ELG;`).
    pub fn to_layout_string(&self) -> (r: String)
        requires
            self.wf(),
        ensures
            r@ == layout_of(self@),
    {
        proof {
            reveal_strlit("-");
            reveal_strlit(";");
        }
        let mut out = String::new();
        let mut row: usize = 0;
        while row < 4
            invariant
                self.wf(),
                row <= 4,
                out@.len() == row * 4,
                forall|j: int| 0 <= j < row * 4 ==> out@[j] == layout_of(self@)[j],
            decreases 4 - row,
        {
            let mut col: usize = 0;
            while col < 3
                invariant
                    self.wf(),
                    row < 4,
                    col <= 3,
                    out@.len() == row * 4 + col,
                    forall|j: int| 0 <= j < row * 4 + col ==> out@[j] == layout_of(self@)[j],
                decreases 3 - col,
            {
                proof {
                    reveal_strlit("-");
                }
                match self.get_cell_at((row, col)) {
                    Some(p) => out.append(p.face_str()),
                    None => out.append("-"),
                }
                col = col + 1;
            }
            proof {
                reveal_strlit(";");
            }
            out.append(";");
            row = row + 1;
        }
        proof {
            assert(out@ =~= layout_of(self@));
        }
        out
    }

    /// A human-readable rendering of the board as a bordered grid with row
    /// and column headings, optionally coloring each piece by its owner.
    pub fn to_string_for_display(&self, colored: bool) -> String {
        let mut out = String::new();
        out.append("  0 1 2\n +-+-+-+");
        let mut row: usize = 0;
        while row < 4
            decreases 4 - row,
        {
            out.append("\n");
            out.append(
                match row {
                    0 => "0",
                    1 => "1",
                    2 => "2",
                    _ => "3",
                },
            );
            out.append("|");
            let mut col: usize = 0;
            while col < 3
                invariant
                    row < 4,
                    col <= 3,
                decreases 3 - col,
            {
                let k = row * 3 + col;
                let cell = if k < self.cells.len() {
                    self.cells[k]
                } else {
                    None
                };
                match cell {
                    Some(p) => {
                        if colored {
                            match p.owner {
                                Player::First => out.append("\x1b[97m\x1b[40m"),
                                Player::Second => out.append("\x1b[30m\x1b[47m"),
                            }
                        }
                        out.append(p.face_str());
                        if colored {
                            out.append("\x1b[0m");
                        }
                    },
                    None => out.append(" "),
                }
                out.append("|");
                col = col + 1;
            }
            out.append("\n +-+-+-+");
            row = row + 1;
        }
        out
    }

    /// Parses a board-layout string: four rows of three cell characters, each
    /// row terminated by a semicolon (such as `gle;-c-;-C-;ELG;`).  Each cell
    /// character is read by [`Piece::from_char`]; unrecognized characters
    /// denote empty cells.  Fails exactly on strings that do not have that
    /// shape.
    pub fn from_str(s: &str) -> (r: Result<Board, ParseBoardError>)
        ensures
            r is Ok <==> layout_ok(s@),
            r matches Ok(b) ==> {
                &&& b.wf()
                &&& forall|row: int, col: int|
                    cell_in_bounds(row, col) ==> #[trigger] cell_at(b@, row, col) == piece_of_char(
                        s@[row * 4 + col],
                    )
            },
    {
        if s.unicode_len() != 16 {
            return Err(ParseBoardError);
        }
        let mut cells: Vec<Option<Piece>> = Vec::new();
        let mut i: usize = 0;
        while i < 16
            invariant
                s@.len() == 16,
                i <= 16,
                i % 4 == 0,
                cells@.len() == 3 * (i / 4),
                forall|j: int| 0 <= j < i ==> ((#[trigger] s@[j] == ';') <==> j % 4 == 3),
                forall|row: int, col: int|
                    0 <= row < i / 4 && 0 <= col < 3 ==> #[trigger] cell_at(cells@, row, col)
                        == piece_of_char(s@[row * 4 + col]),
            decreases 16 - i,
        {
            let c0 = s.get_char(i);
            let c1 = s.get_char(i + 1);
            let c2 = s.get_char(i + 2);
            let sep = s.get_char(i + 3);
            if c0 == ';' || c1 == ';' || c2 == ';' || sep != ';' {
                return Err(ParseBoardError);
            }
            let ghost old_cells = cells@;
            let ghost row0 = i as int / 4;
            cells.push(Piece::from_char(c0));
            cells.push(Piece::from_char(c1));
            cells.push(Piece::from_char(c2));
            proof {
                assert(i as int == 4 * row0);
                assert(forall|j: int| 0 <= j < 3 * row0 ==> cells@[j] == old_cells[j]);
                assert(forall|row: int, col: int|
                    0 <= row < row0 && 0 <= col < 3 ==> #[trigger] cell_at(cells@, row, col)
                        == cell_at(old_cells, row, col));
                assert(cells@[3 * row0] == piece_of_char(s@[4 * row0]));
                assert(cells@[3 * row0 + 1] == piece_of_char(s@[4 * row0 + 1]));
                assert(cells@[3 * row0 + 2] == piece_of_char(s@[4 * row0 + 2]));
                assert(forall|row: int, col: int|
                    0 <= row <= row0 && 0 <= col < 3 ==> #[trigger] cell_at(cells@, row, col)
                        == piece_of_char(s@[row * 4 + col]));
            }
            i = i + 4;
        }
        Ok(Board { cells })
    }
}

impl Default for Board {
    /// The canonical opening position, `gle;-c-;-C-;ELG;`.
    fn default() -> (r: Board)
        ensures
            r.wf(),
            r@ == canonical_board(),
    {
        let mut cells: Vec<Option<Piece>> = Vec::new();
        cells.push(Piece::from_char('g'));
        cells.push(Piece::from_char('l'));
        cells.push(Piece::from_char('e'));
        cells.push(None);
        cells.push(Piece::from_char('c'));
        cells.push(None);
        cells.push(None);
        cells.push(Piece::from_char('C'));
        cells.push(None);
        cells.push(Piece::from_char('E'));
        cells.push(Piece::from_char('L'));
        cells.push(Piece::from_char('G'));
        let r = Board { cells };
        assert(r@ =~= canonical_board());
        r
    }
}

} // verus!
