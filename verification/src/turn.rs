//! Whose turn it is, and the move count.

use vstd::prelude::*;

use crate::geometry::Player;

verus! {

/// The turn state: the active player and the move count.  The count starts at
/// 1 and grows by 1 each time the turn wraps from `Second` back to `First`.
#[derive(Clone, Copy, PartialEq, Eq, Structural, Debug)]
pub struct TurnCounter {
    pub count: u32,
    pub player: Player,
}

/// The turn state after one advance: `First` hands the turn to `Second` with
/// the count unchanged; `Second` hands it back to `First` and the count grows
/// by 1.
pub open spec fn advanced(t: TurnCounter) -> TurnCounter {
    match t.player {
        Player::First => TurnCounter { count: t.count, player: Player::Second },
        Player::Second => TurnCounter { count: (t.count + 1) as u32, player: Player::First },
    }
}

/// The turn state after `n` advances.
pub open spec fn advanced_n(t: TurnCounter, n: nat) -> TurnCounter
    decreases n,
{
    if n == 0 {
        t
    } else {
        advanced(advanced_n(t, (n - 1) as nat))
    }
}

impl TurnCounter {
    /// Hands the turn to the other player, counting a full round each time
    /// the turn wraps back to `First`.
    pub fn advance(&mut self)
        requires
            old(self).player is Second ==> old(self).count < u32::MAX,
        ensures
            *final(self) == advanced(*old(self)),
    {
        match self.player {
            Player::First => {
                self.player = Player::Second;
            },
            Player::Second => {
                self.count = self.count + 1;
                self.player = Player::First;
            },
        }
    }
}

impl Default for TurnCounter {
    /// The opening state: move 1, `First` to play.
    fn default() -> (r: TurnCounter)
        ensures
            r == (TurnCounter { count: 1, player: Player::First }),
    {
        TurnCounter { count: 1, player: Player::First }
    }
}

/// Turn alternation: starting from the opening state, after `n` advances the
/// active player is `First` exactly when `n` is even, and the move count has
/// grown by 1 for every two advances.  Each successful command advances the
/// counter exactly once, so `n` counts successful commands.
pub proof fn lemma_turn_alternation(n: nat)
    requires
        n < u32::MAX,
    ensures
        advanced_n((TurnCounter { count: 1, player: Player::First }), n).player == (if n % 2 == 0 {
            Player::First
        } else {
            Player::Second
        }),
        advanced_n((TurnCounter { count: 1, player: Player::First }), n).count == 1 + n / 2,
    decreases n,
{
    if n > 0 {
        lemma_turn_alternation((n - 1) as nat);
    }
}

} // verus!
