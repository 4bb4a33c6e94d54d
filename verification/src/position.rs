use vstd::prelude::*;
use crate::piece::{Color, Piece};

verus! {

/// A position as a mathematical value: what stands on each square, and
/// what the notation records beside the placement.
///
/// `pieces` holds the squares in index order, a1 first and h8 last.
pub ghost struct Position {
    pub pieces: Seq<Option<Piece>>,
    pub side_to_play: Color,
    pub white_can_oo: bool,
    pub white_can_ooo: bool,
    pub black_can_oo: bool,
    pub black_can_ooo: bool,
    pub en_passant_square: Option<u8>,
    pub halfmove_clock: u64,
    pub fullmove_number: u64,
}

impl Position {
    /// A position has 64 squares, and its en passant target, where it has
    /// one, is the index of a square.
    pub open spec fn wf(self) -> bool {
        &&& self.pieces.len() == 64
        &&& (self.en_passant_square matches Some(e) ==> e < 64)
    }

    /// This position with other pieces on its squares and all else as it
    /// is.
    pub open spec fn with_pieces(self, pieces: Seq<Option<Piece>>) -> Position {
        Position { pieces, ..self }
    }

    /// The first `n` squares of this position as they are and the others
    /// empty, all else as it is.
    pub open spec fn filled_to(self, n: int) -> Position {
        self.with_pieces(
            Seq::new(self.pieces.len(), |i: int| if i < n { self.pieces[i] } else { None }),
        )
    }

    /// This position after whatever stands on square `from` has gone to
    /// square `to`: `to` holds what `from` held, then `from` is emptied.
    pub open spec fn relocated(self, from: int, to: int) -> Position {
        self.with_pieces(self.pieces.update(to, self.pieces[from]).update(from, None))
    }
}

/// The state of a board, field by field as the notation gives it.
///
/// `pieces` holds the squares in index order, a1 first and h8 last.
#[derive(Debug, PartialEq, Eq)]
pub struct State {
    pub pieces: Vec<Option<Piece>>,
    pub side_to_play: Color,
    pub white_can_oo: bool,
    pub white_can_ooo: bool,
    pub black_can_oo: bool,
    pub black_can_ooo: bool,
    pub en_passant_square: Option<u8>,
    pub halfmove_clock: u64,
    pub fullmove_number: u64,
}

impl View for State {
    type V = Position;

    open spec fn view(&self) -> Position {
        Position {
            pieces: self.pieces@,
            side_to_play: self.side_to_play,
            white_can_oo: self.white_can_oo,
            white_can_ooo: self.white_can_ooo,
            black_can_oo: self.black_can_oo,
            black_can_ooo: self.black_can_ooo,
            en_passant_square: self.en_passant_square,
            halfmove_clock: self.halfmove_clock,
            fullmove_number: self.fullmove_number,
        }
    }
}

/// Moving a piece to an empty square: afterwards the square it left is
/// empty and the square it went to holds it. Every other square, and all
/// that the position records beside the pieces, is as before.
pub proof fn relocation_moves(position: Position, from: int, to: int)
    requires
        position.wf(),
        0 <= from < 64,
        0 <= to < 64,
        position.pieces[from] is Some,
        position.pieces[to] is None,
    ensures
        position.relocated(from, to).pieces[from] is None,
        position.relocated(from, to).pieces[to] == position.pieces[from],
        forall|i: int|
            0 <= i < 64 && i != from && i != to ==> position.relocated(from, to).pieces[i]
                == position.pieces[i],
        position.relocated(from, to) == position.with_pieces(
            position.relocated(from, to).pieces,
        ),
        position.relocated(from, to).wf(),
{
}

/// Moving a piece onto another: afterwards the square it left is empty,
/// and the square it went to holds it in place of the piece that stood
/// there. No other square changes, so the piece that stood there is on no
/// square at all.
pub proof fn relocation_overwrites(position: Position, from: int, to: int)
    requires
        position.wf(),
        0 <= from < 64,
        0 <= to < 64,
        position.pieces[from] is Some,
        position.pieces[to] is Some,
    ensures
        position.relocated(from, to).pieces[from] is None,
        from != to ==> position.relocated(from, to).pieces[to] == position.pieces[from],
        forall|i: int|
            0 <= i < 64 && i != from && i != to ==> position.relocated(from, to).pieces[i]
                == position.pieces[i],
        position.relocated(from, to).wf(),
{
}

} // verus!
