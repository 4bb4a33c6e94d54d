use vstd::prelude::*;

verus! {

/// Why a text is not a position in Forsyth-Edwards notation.
#[derive(Copy, Clone, Debug, PartialEq, Eq, Structural)]
pub enum FenError {
    /// The text does not consist of six fields with one space between
    /// each two.
    NotEnoughParts,
    /// The placement does not consist of eight ranks, or one of its ranks
    /// does not fill eight files, or holds two counts of empty squares in
    /// a row.
    BadPlacement,
    /// A rank of the placement reaches beyond the eighth file.
    TooManyPieces,
    /// The placement holds a character that is neither a piece letter nor
    /// a count of empty squares.
    UnknownPiece(char),
    /// The side to play is neither `w` nor `b`.
    NoSuchSide,
    /// The en passant target is neither `-` nor the name of a square.
    BadEnPassant,
    /// The halfmove clock is not a number.
    BadHalfmove,
    /// The fullmove number is not a number.
    BadFullmove,
}

} // verus!
