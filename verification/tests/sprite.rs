use chessboard::piece::{Color, Piece, PieceKind};
use chessboard::space::Space;
use chessboard::sprite::{fate, piece_index, Fate};

#[test]
fn piece_index_counts_row_by_row() {
    let kinds = [
        PieceKind::King,
        PieceKind::Queen,
        PieceKind::Bishop,
        PieceKind::Knight,
        PieceKind::Rook,
        PieceKind::Pawn,
    ];
    for (column, kind) in kinds.iter().enumerate() {
        assert_eq!(piece_index(&Piece { kind: *kind, color: Color::White }), column);
        assert_eq!(piece_index(&Piece { kind: *kind, color: Color::Black }), column + 6);
    }
}

#[test]
fn piece_index_of_some_pieces() {
    assert_eq!(piece_index(&Piece { kind: PieceKind::King, color: Color::White }), 0);
    assert_eq!(piece_index(&Piece { kind: PieceKind::Pawn, color: Color::White }), 5);
    assert_eq!(piece_index(&Piece { kind: PieceKind::King, color: Color::Black }), 6);
    assert_eq!(piece_index(&Piece { kind: PieceKind::Knight, color: Color::Black }), 9);
    assert_eq!(piece_index(&Piece { kind: PieceKind::Pawn, color: Color::Black }), 11);
}

#[test]
fn fate_of_the_images_when_a_piece_moves() {
    assert_eq!(fate(Space::E2, Space::E2, Space::E4), Fate::Moves);
    assert_eq!(fate(Space::E4, Space::E2, Space::E4), Fate::Leaves);
    assert_eq!(fate(Space::D2, Space::E2, Space::E4), Fate::Stays);
    assert_eq!(fate(Space::E2, Space::E2, Space::E2), Fate::Moves);
}
