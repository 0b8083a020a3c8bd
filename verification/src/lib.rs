//! A verified rules engine for Animal Shogi (Doubutsu Shogi), a two-player
//! board game on a 4x3 grid.
//!
//! The engine models the board, the piece movement table, per-player pools of
//! captured pieces and the turn counter, and validates and executes the two
//! commands of the game: moving a piece on the board and dropping a captured
//! piece back onto it.  Win detection covers both a captured Lion and a Lion
//! that reached the opponent's back rank safely.

pub mod board;
pub mod display;
pub mod geometry;
pub mod master;
pub mod piece;
pub mod pool;
pub mod turn;

pub use board::Board;
pub use board::ParseBoardError;
pub use display::ToDescriptiveString;
pub use geometry::Direction;
pub use geometry::Player;
pub use master::AnimalShogiMaster;
pub use master::Message;
pub use master::RuleError;
pub use piece::Animal;
pub use piece::Piece;
pub use piece::PieceKind;
pub use pool::Pools;
pub use turn::TurnCounter;
