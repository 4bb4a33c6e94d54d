//! The `fen` crate, which reads and writes the notation, and what is
//! taken on trust of it. Nothing in this file is proved: each contract
//! here states what the crate's code does.

use vstd::prelude::*;
use crate::error::FenError;
use crate::notation::layout_error;
use crate::piece::{Color, Piece, PieceKind};
use crate::position::{Position, State};

verus! {

/// `fen::BoardState`, the record of a position that the `fen` crate
/// parses and writes. Its fields are hidden from the proofs:
/// `position_of` stands for what a record holds.
#[verifier::external_type_specification]
#[verifier::external_body]
pub struct ExBoardState(fen::BoardState);

/// What a `fen::BoardState` holds: its squares in index order, and its
/// other fields under their own names.
pub uninterp spec fn position_of(record: fen::BoardState) -> Position;

/// What `fen::BoardState::from_fen` returns for a text: the position that
/// the record holds, or the error.
pub uninterp spec fn fen_decoded(text: Seq<char>) -> Result<Position, FenError>;

/// The text that `fen::BoardState::to_fen` returns for a record that
/// holds the given position.
pub uninterp spec fn fen_encoded(position: Position) -> Seq<char>;

/// Calls `fen::BoardState::from_fen` and gives each of its errors the
/// name it has here.
///
/// Taken on trust: the outcome depends on the text alone, so that
/// `fen_decoded` can stand for it; and a record that comes back has 64
/// squares and an en passant target below 64, as the crate builds it.
/// The crate indexes past the last square, or past the end of the en
/// passant field, on some texts of unsound shape: those are left out.
#[verifier::external_body]
pub(crate) fn read_fen(text: &str) -> (r: Result<fen::BoardState, FenError>)
    requires
        layout_error(text@) is None,
    ensures
        match r {
            Ok(record) => fen_decoded(text@) == Ok::<Position, FenError>(position_of(record))
                && position_of(record).wf(),
            Err(error) => fen_decoded(text@) == Err::<Position, FenError>(error),
        },
{
    fen::BoardState::from_fen(text).map_err(|e| match e {
        fen::FenError::NotEnoughParts => FenError::NotEnoughParts,
        fen::FenError::BadPlacement(_) => FenError::BadPlacement,
        fen::FenError::TooManyPieces(_) => FenError::TooManyPieces,
        fen::FenError::UnknownPiece(c) => FenError::UnknownPiece(c),
        fen::FenError::NoSuchSide(_) => FenError::NoSuchSide,
        fen::FenError::BadEnPassant(_) => FenError::BadEnPassant,
        fen::FenError::BadHalfmove(_) => FenError::BadHalfmove,
        fen::FenError::BadFullmove(_) => FenError::BadFullmove,
    })
}

/// Calls `fen::BoardState::to_fen`.
///
/// Taken on trust: the text depends on what the record holds alone, so
/// that `fen_encoded` can stand for it. The crate reads the first 64
/// squares and names the en passant target by file and rank, which it
/// can do for a record that is well formed.
#[verifier::external_body]
pub(crate) fn write_fen(record: &fen::BoardState) -> (text: String)
    requires
        position_of(*record).wf(),
    ensures
        text@ == fen_encoded(position_of(*record)),
{
    record.to_fen()
}

/// Reads one square of a `fen::BoardState`, and gives the kind and the
/// side of the piece on it the names they have here.
///
/// Taken on trust: what comes back is what the record holds there.
#[verifier::external_body]
pub(crate) fn piece_on(record: &fen::BoardState, square: usize) -> (piece: Option<Piece>)
    requires
        square < position_of(*record).pieces.len(),
    ensures
        piece == position_of(*record).pieces[square as int],
{
    record.pieces[square].as_ref().map(|p| Piece {
        kind: match p.kind {
            fen::PieceKind::Pawn => PieceKind::Pawn,
            fen::PieceKind::Knight => PieceKind::Knight,
            fen::PieceKind::Bishop => PieceKind::Bishop,
            fen::PieceKind::Rook => PieceKind::Rook,
            fen::PieceKind::Queen => PieceKind::Queen,
            fen::PieceKind::King => PieceKind::King,
        },
        color: match p.color {
            fen::Color::White => Color::White,
            fen::Color::Black => Color::Black,
        },
    })
}

/// Reads the fields of a `fen::BoardState` other than its squares, and
/// gives the side to play the name it has here.
///
/// Taken on trust: what comes back holds no squares, and in every other
/// field what the record holds.
#[verifier::external_body]
pub(crate) fn rest_of(record: &fen::BoardState) -> (state: State)
    ensures
        state@ == position_of(*record).with_pieces(Seq::empty()),
{
    State {
        pieces: Vec::new(),
        side_to_play: match record.side_to_play {
            fen::Color::White => Color::White,
            fen::Color::Black => Color::Black,
        },
        white_can_oo: record.white_can_oo,
        white_can_ooo: record.white_can_ooo,
        black_can_oo: record.black_can_oo,
        black_can_ooo: record.black_can_ooo,
        en_passant_square: record.en_passant_square,
        halfmove_clock: record.halfmove_clock,
        fullmove_number: record.fullmove_number,
    }
}

/// Makes a `fen::BoardState` of 64 empty squares, with the other fields
/// as a state has them.
///
/// Taken on trust: the record holds 64 empty squares, and in every other
/// field what the state holds.
#[verifier::external_body]
pub(crate) fn empty_record(state: &State) -> (record: fen::BoardState)
    ensures
        position_of(record) == state@.with_pieces(Seq::new(64, |i: int| None)),
{
    fen::BoardState {
        pieces: vec![None; 64],
        side_to_play: match state.side_to_play {
            Color::White => fen::Color::White,
            Color::Black => fen::Color::Black,
        },
        white_can_oo: state.white_can_oo,
        white_can_ooo: state.white_can_ooo,
        black_can_oo: state.black_can_oo,
        black_can_ooo: state.black_can_ooo,
        en_passant_square: state.en_passant_square,
        halfmove_clock: state.halfmove_clock,
        fullmove_number: state.fullmove_number,
    }
}

/// Puts a piece on one square of a `fen::BoardState`, under the names
/// that the crate has for its kind and its side.
///
/// Taken on trust: the square then holds the piece, and nothing else in
/// the record has changed.
#[verifier::external_body]
pub(crate) fn put_piece(record: &mut fen::BoardState, square: usize, piece: Piece)
    requires
        square < position_of(*old(record)).pieces.len(),
    ensures
        position_of(*final(record)) == position_of(*old(record)).with_pieces(
            position_of(*old(record)).pieces.update(square as int, Some(piece)),
        ),
{
    record.pieces[square] = Some(fen::Piece {
        kind: match piece.kind {
            PieceKind::Pawn => fen::PieceKind::Pawn,
            PieceKind::Knight => fen::PieceKind::Knight,
            PieceKind::Bishop => fen::PieceKind::Bishop,
            PieceKind::Rook => fen::PieceKind::Rook,
            PieceKind::Queen => fen::PieceKind::Queen,
            PieceKind::King => fen::PieceKind::King,
        },
        color: match piece.color {
            Color::White => fen::Color::White,
            Color::Black => fen::Color::Black,
        },
    });
}

} // verus!
