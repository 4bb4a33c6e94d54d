//! What a display of the board needs to know: where the image of a piece
//! lies in a sheet of images, and what becomes of the image on a square
//! when a piece moves.

use vstd::prelude::*;
use crate::piece::{Color, Piece, PieceKind};
use crate::space::Space;

verus! {

/// The column of a kind of piece in a sheet of piece images that shows
/// king, queen, bishop, knight, rook and pawn from left to right.
pub open spec fn column_of(kind: PieceKind) -> int {
    match kind {
        PieceKind::King => 0,
        PieceKind::Queen => 1,
        PieceKind::Bishop => 2,
        PieceKind::Knight => 3,
        PieceKind::Rook => 4,
        PieceKind::Pawn => 5,
    }
}

/// The row of a side in a sheet of piece images: white above black.
pub open spec fn row_of(color: Color) -> int {
    match color {
        Color::White => 0,
        Color::Black => 1,
    }
}

/// The place of a piece's image in a sheet of two rows of six images,
/// counted row by row.
pub open spec fn image_index(piece: Piece) -> int {
    row_of(piece.color) * 6 + column_of(piece.kind)
}

/// The place of a piece's image in a sheet of two rows of six images, the
/// white pieces in the first row and the black ones in the second, each
/// row in the order king, queen, bishop, knight, rook, pawn.
pub fn piece_index(piece: &Piece) -> (index: usize)
    ensures
        index == image_index(*piece),
        index < 12,
{
    let column: usize = match piece.kind {
        PieceKind::King => 0,
        PieceKind::Queen => 1,
        PieceKind::Bishop => 2,
        PieceKind::Knight => 3,
        PieceKind::Rook => 4,
        PieceKind::Pawn => 5,
    };
    let row: usize = match piece.color {
        Color::White => 0,
        Color::Black => 6,
    };
    column + row
}

/// What becomes of the image that is shown on a square when a piece
/// moves from one square to another.
#[derive(Copy, Clone, Debug, PartialEq, Eq, Structural)]
pub enum Fate {
    /// The image stands on the square that the piece leaves: it goes
    /// along.
    Moves,
    /// The image stands on the square that the piece goes to: it is taken
    /// off the board.
    Leaves,
    /// The image stands elsewhere and stays.
    Stays,
}

/// What becomes of the image on square `at` when a piece moves from
/// `from` to `to`. Where `from` and `to` are one square, the image on it
/// goes along.
pub open spec fn fate_of(at: Space, from: Space, to: Space) -> Fate {
    if at == from {
        Fate::Moves
    } else if at == to {
        Fate::Leaves
    } else {
        Fate::Stays
    }
}

/// What becomes of the image on square `at` when a piece moves from
/// `from` to `to`.
pub fn fate(at: Space, from: Space, to: Space) -> (f: Fate)
    ensures
        f == fate_of(at, from, to),
{
    if at == from {
        Fate::Moves
    } else if at == to {
        Fate::Leaves
    } else {
        Fate::Stays
    }
}

} // verus!
