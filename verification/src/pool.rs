//! Per-player pools of captured pieces.
//!
//! A pool stores only piece kinds: a captured piece always enters the pool in
//! demoted form, and a piece dropped from the pool always starts demoted, so
//! the promotion flag never needs to be remembered.

use vstd::prelude::*;

use crate::geometry::opponent;
use crate::geometry::Player;
use crate::piece::Piece;
use crate::piece::PieceKind;

verus! {

/// The two players' pools of captured pieces, each an ordered list of kinds.
/// Indices into a pool are positional: removing an entry shifts the later
/// entries down.
#[derive(Clone, Debug)]
pub struct Pools {
    first: Vec<PieceKind>,
    second: Vec<PieceKind>,
}

impl Pools {
    /// The kinds in `owner`'s pool, in order.
    pub closed spec fn pool_view(&self, owner: Player) -> Seq<PieceKind> {
        match owner {
            Player::First => self.first@,
            Player::Second => self.second@,
        }
    }

    /// A read-only borrow of `owner`'s pool.
    pub fn get_pool_of(&self, owner: Player) -> (r: &Vec<PieceKind>)
        ensures
            r@ == self.pool_view(owner),
    {
        match owner {
            Player::First => &self.first,
            Player::Second => &self.second,
        }
    }

    /// Appends a captured piece to `new_owner`'s pool.  Only the kind is
    /// kept, so the piece is stored in demoted form whatever its promotion
    /// state was.
    pub fn add(&mut self, new_owner: Player, piece: Piece)
        ensures
            final(self).pool_view(new_owner) == old(self).pool_view(new_owner).push(piece.kind),
            final(self).pool_view(opponent(new_owner)) == old(self).pool_view(
                opponent(new_owner),
            ),
    {
        match new_owner {
            Player::First => self.first.push(piece.kind),
            Player::Second => self.second.push(piece.kind),
        }
    }

    /// Removes the entry at `index` from `owner`'s pool and returns it as a
    /// fresh, demoted piece of `owner`'s; later entries shift down one place.
    /// Returns `None`, changing nothing, when `index` is out of the pool.
    pub fn remove(&mut self, owner: Player, index: usize) -> (r: Option<Piece>)
        ensures
            index < old(self).pool_view(owner).len() ==> {
                &&& r == Some(
                    (Piece {
                        kind: old(self).pool_view(owner)[index as int],
                        is_promoted: false,
                        owner,
                    }),
                )
                &&& final(self).pool_view(owner) == old(self).pool_view(owner).remove(index as int)
            },
            index >= old(self).pool_view(owner).len() ==> {
                &&& r is None
                &&& final(self).pool_view(owner) == old(self).pool_view(owner)
            },
            final(self).pool_view(opponent(owner)) == old(self).pool_view(opponent(owner)),
    {
        let pool = match owner {
            Player::First => &mut self.first,
            Player::Second => &mut self.second,
        };
        if index < pool.len() {
            let kind = pool.remove(index);
            Some(Piece { kind, is_promoted: false, owner })
        } else {
            None
        }
    }

    /// Whether `owner`'s pool holds a piece of the given kind; a Lion in a
    /// pool means the opponent's Lion was captured.
    pub fn contains(&self, owner: Player, kind: PieceKind) -> (r: bool)
        ensures
            r == self.pool_view(owner).contains(kind),
    {
        let pool = self.get_pool_of(owner);
        let mut i: usize = 0;
        while i < pool.len()
            invariant
                pool@ == self.pool_view(owner),
                i <= pool@.len(),
                forall|j: int| 0 <= j < i ==> pool@[j] != kind,
            decreases pool@.len() - i,
        {
            if pool[i] == kind {
                assert(self.pool_view(owner).contains(kind)) by {
                    assert(self.pool_view(owner)[i as int] == kind);
                }
                return true;
            }
            i = i + 1;
        }
        false
    }
}

impl Default for Pools {
    /// Two empty pools.
    fn default() -> (r: Pools)
        ensures
            r.pool_view(Player::First).len() == 0,
            r.pool_view(Player::Second).len() == 0,
    {
        Pools { first: Vec::new(), second: Vec::new() }
    }
}

} // verus!
