use chessboard::board::Board;
use chessboard::notation::find_layout_error;
use chessboard::piece::{Color, Piece, PieceKind};
use chessboard::space::Space;

/// A small generator of numbers that gives the same row on every run.
struct Numbers(u64);

impl Numbers {
    fn next(&mut self, bound: u64) -> u64 {
        self.0 = self.0.wrapping_mul(6364136223846793005).wrapping_add(1442695040888963407);
        (self.0 >> 33) % bound
    }
}

const LETTERS: [char; 12] = ['P', 'N', 'B', 'R', 'Q', 'K', 'p', 'n', 'b', 'r', 'q', 'k'];

fn piece_of(letter: char) -> Piece {
    let kind = match letter.to_ascii_uppercase() {
        'P' => PieceKind::Pawn,
        'N' => PieceKind::Knight,
        'B' => PieceKind::Bishop,
        'R' => PieceKind::Rook,
        'Q' => PieceKind::Queen,
        _ => PieceKind::King,
    };
    let color = if letter.is_ascii_uppercase() { Color::White } else { Color::Black };
    Piece { kind, color }
}

/// Some squares with pieces on them, and the text that gives them.
fn some_position(numbers: &mut Numbers) -> (Vec<Option<Piece>>, String) {
    let mut squares = vec![None; 64];
    let mut text = String::new();
    for rank in (0..8usize).rev() {
        let mut empty = 0;
        for file in 0..8usize {
            if numbers.next(3) == 0 {
                let letter = LETTERS[numbers.next(12) as usize];
                squares[rank * 8 + file] = Some(piece_of(letter));
                if empty > 0 {
                    text.push_str(&empty.to_string());
                    empty = 0;
                }
                text.push(letter);
            } else {
                empty += 1;
            }
        }
        if empty > 0 {
            text.push_str(&empty.to_string());
        }
        if rank > 0 {
            text.push('/');
        }
    }
    text.push_str(if numbers.next(2) == 0 { " w " } else { " b " });
    let mut rights = String::new();
    for letter in ['K', 'Q', 'k', 'q'] {
        if numbers.next(2) == 0 {
            rights.push(letter);
        }
    }
    text.push_str(if rights.is_empty() { "-" } else { &rights });
    text.push(' ');
    if numbers.next(2) == 0 {
        text.push('-');
    } else {
        text.push((b'a' + numbers.next(8) as u8) as char);
        text.push((b'1' + numbers.next(8) as u8) as char);
    }
    text.push_str(&format!(" {} {}", numbers.next(100), numbers.next(u64::MAX)));
    (squares, text)
}

#[test]
fn texts_written_by_the_rules_decode_and_encode_to_themselves() {
    let mut numbers = Numbers(2024);
    for _ in 0..500 {
        let (squares, text) = some_position(&mut numbers);
        assert_eq!(find_layout_error(&text), None);
        let board = Board::from_fen(&text).unwrap();
        for i in 0..64usize {
            assert_eq!(board.piece_at(Space::from_index(i).unwrap()), squares[i]);
        }
        assert_eq!(board.to_fen(), text);
    }
}

#[test]
fn decode_encode_decode_gives_the_first_board_again() {
    let mut numbers = Numbers(7);
    for _ in 0..500 {
        let (_, text) = some_position(&mut numbers);
        let first = Board::from_fen(&text).unwrap();
        let second = Board::from_fen(&first.to_fen()).unwrap();
        assert_eq!(first, second);
        assert_eq!(first.pieces(), second.pieces());
    }
}

#[test]
fn moving_pieces_keeps_the_board_in_the_notation() {
    let mut numbers = Numbers(99);
    for _ in 0..200 {
        let (mut squares, text) = some_position(&mut numbers);
        let mut board = Board::from_fen(&text).unwrap();
        for _ in 0..10 {
            let from = numbers.next(64) as usize;
            let to = numbers.next(64) as usize;
            board.move_piece(Space::from_index(from).unwrap(), Space::from_index(to).unwrap());
            squares[to] = squares[from];
            squares[from] = None;
        }
        for i in 0..64usize {
            assert_eq!(board.piece_at(Space::from_index(i).unwrap()), squares[i]);
        }
        let again = Board::from_fen(&board.to_fen()).unwrap();
        assert_eq!(again, board);
        let tail = |t: &str| t.split_once(' ').map(|(_, rest)| rest.to_string());
        assert_eq!(tail(&board.to_fen()), tail(&text));
    }
}

#[test]
fn every_text_of_sound_shape_decodes() {
    let ranks = ["8", "pppppppp", "4P3", "1p1p1p1p", "k6K", "3qQ3", "rnbqkbnr", "2B2b2"];
    let sides = ["w", "b"];
    let rights = ["-", "KQkq", "q", "", "xyz", "Kk-"];
    let targets = ["-", "a1", "e3", "h8", "c6"];
    let counters = ["0", "1", "+5", "007", "18446744073709551615"];
    let mut numbers = Numbers(5);
    for _ in 0..500 {
        let mut pick = |from: &[&str]| from[numbers.next(from.len() as u64) as usize].to_string();
        let placement: Vec<String> = (0..8).map(|_| pick(&ranks)).collect();
        let text = format!(
            "{} {} {} {} {} {}",
            placement.join("/"),
            pick(&sides),
            pick(&rights),
            pick(&targets),
            pick(&counters),
            pick(&counters)
        );
        assert_eq!(find_layout_error(&text), None);
        assert!(Board::from_fen(&text).is_ok());
    }
}
