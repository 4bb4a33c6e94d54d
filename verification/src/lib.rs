//! A chessboard: its squares, the pieces standing on them, and the
//! position in Forsyth-Edwards notation.

pub mod board;
pub mod codec;
pub mod error;
pub mod notation;
pub mod piece;
pub mod position;
pub mod space;
pub mod sprite;
