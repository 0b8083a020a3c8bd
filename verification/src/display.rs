//! Human-readable renderings of the game state for a text console.

use vstd::prelude::*;

use crate::board::Board;
use crate::geometry::Player;
use crate::piece::PieceKind;
use crate::pool::Pools;
use crate::turn::TurnCounter;

verus! {

/// A human-readable, optionally ANSI-colored description of a value.
pub trait ToDescriptiveString {
    fn to_descriptive_string(&self, colored: bool) -> String;
}

/// The player's name.
pub fn player_str(p: Player) -> &'static str {
    match p {
        Player::First => "First",
        Player::Second => "Second",
    }
}

/// The piece kind's name.
pub fn kind_str(k: PieceKind) -> &'static str {
    match k {
        PieceKind::Chicken => "Chicken",
        PieceKind::Elephant => "Elephant",
        PieceKind::Giraffe => "Giraffe",
        PieceKind::Lion => "Lion",
    }
}

fn digit_str(d: usize) -> &'static str
    requires
        d < 10,
{
    match d {
        0 => "0",
        1 => "1",
        2 => "2",
        3 => "3",
        4 => "4",
        5 => "5",
        6 => "6",
        7 => "7",
        8 => "8",
        _ => "9",
    }
}

/// The decimal rendering of a number.
pub fn usize_to_string(n: usize) -> String {
    if n == 0 {
        return String::from_str("0");
    }
    let mut rest = n;
    let mut digits: Vec<&'static str> = Vec::new();
    while rest > 0
        decreases rest,
    {
        digits.push(digit_str(rest % 10));
        rest = rest / 10;
    }
    let mut out = String::new();
    let mut i = digits.len();
    while i > 0
        invariant
            i <= digits.len(),
        decreases i,
    {
        i = i - 1;
        out.append(digits[i]);
    }
    out
}

impl ToDescriptiveString for Board {
    /// The bordered grid rendering of [`Board::to_string_for_display`].
    fn to_descriptive_string(&self, colored: bool) -> String {
        self.to_string_for_display(colored)
    }
}

impl ToDescriptiveString for TurnCounter {
    /// The active player and the move count, such as
    /// `First Player's Turn (count:1)`.
    fn to_descriptive_string(&self, _colored: bool) -> String {
        let mut out = String::new();
        out.append(player_str(self.player));
        out.append(" Player's Turn (count:");
        out.append(usize_to_string(self.count as usize).as_str());
        out.append(")");
        out
    }
}

impl ToDescriptiveString for Pools {
    /// Both players' pools, one line each, every entry with its positional
    /// index, such as `First's Pool: Chicken(0), Giraffe(1)`.
    fn to_descriptive_string(&self, colored: bool) -> String {
        let mut out = String::new();
        let mut which: usize = 0;
        while which < 2
            decreases 2 - which,
        {
            let player = if which == 0 {
                Player::First
            } else {
                Player::Second
            };
            if colored {
                match player {
                    Player::First => out.append("\x1b[97m\x1b[40m"),
                    Player::Second => out.append("\x1b[30m\x1b[47m"),
                }
            }
            out.append(player_str(player));
            out.append("'s Pool:");
            if colored {
                out.append("\x1b[0m");
            }
            out.append(" ");
            let pool = self.get_pool_of(player);
            let mut i: usize = 0;
            while i < pool.len()
                invariant
                    i <= pool@.len(),
                decreases pool@.len() - i,
            {
                if i > 0 {
                    out.append(", ");
                }
                out.append(kind_str(pool[i]));
                out.append("(");
                out.append(usize_to_string(i).as_str());
                out.append(")");
                i = i + 1;
            }
            if which == 0 {
                out.append("\n");
            }
            which = which + 1;
        }
        out
    }
}

} // verus!
