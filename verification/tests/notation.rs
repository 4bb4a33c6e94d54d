use chessboard::error::FenError;
use chessboard::notation::{
    chars_of, count_files, find_layout_error, find_placement_error, find_stray, has_meeting_counts,
    names_number, names_side, names_target, split,
};

fn chars(text: &str) -> Vec<char> {
    text.chars().collect()
}

fn texts(parts: Vec<Vec<char>>) -> Vec<String> {
    parts.into_iter().map(|part| part.into_iter().collect()).collect()
}

const START: &str = "rnbqkbnr/pppppppp/8/8/8/8/PPPPPPPP/RNBQKBNR";

#[test]
fn chars_of_gives_the_characters() {
    assert_eq!(chars_of("w K-é"), vec!['w', ' ', 'K', '-', 'é']);
    assert_eq!(chars_of(""), Vec::<char>::new());
}

#[test]
fn split_parts_a_text_at_each_separator() {
    assert_eq!(texts(split(&chars("a b  c"), ' ')), vec!["a", "b", "", "c"]);
    assert_eq!(texts(split(&chars(""), ' ')), vec![""]);
    assert_eq!(texts(split(&chars("abc"), '/')), vec!["abc"]);
    assert_eq!(texts(split(&chars("/x/"), '/')), vec!["", "x", ""]);
    assert_eq!(split(&chars(START), '/').len(), 8);
}

#[test]
fn count_files_adds_letters_and_counts() {
    assert_eq!(count_files(&chars("")), 0);
    assert_eq!(count_files(&chars("8")), 8);
    assert_eq!(count_files(&chars("rnbqkbnr")), 8);
    assert_eq!(count_files(&chars("4P3")), 8);
    assert_eq!(count_files(&chars("3p2")), 6);
    assert_eq!(count_files(&chars("x0y9")), 0);
}

#[test]
fn count_files_gives_nine_for_all_beyond_eight() {
    assert_eq!(count_files(&chars("8p")), 9);
    assert_eq!(count_files(&chars("88888888")), 9);
    assert_eq!(count_files(&chars("ppppppppp")), 9);
    assert_eq!(count_files(&chars("pppppppppppppppppp")), 9);
}

#[test]
fn has_meeting_counts_sees_two_counts_in_a_row() {
    assert!(has_meeting_counts(&chars("44")));
    assert!(has_meeting_counts(&chars("p11p")));
    assert!(!has_meeting_counts(&chars("4P3")));
    assert!(!has_meeting_counts(&chars("8")));
    assert!(!has_meeting_counts(&chars("")));
    assert!(!has_meeting_counts(&chars("1p1p1p1p")));
    assert!(!has_meeting_counts(&chars("90")));
}

#[test]
fn find_stray_gives_the_first_stray_character() {
    assert_eq!(find_stray(&chars(START)), None);
    assert_eq!(find_stray(&chars("rnbqkbnr/ppppTppp/8/8/8/8/PPPPPPPX/RNBQKBNR")), Some('T'));
    assert_eq!(find_stray(&chars("8/9")), Some('9'));
    assert_eq!(find_stray(&chars("0")), Some('0'));
    assert_eq!(find_stray(&chars("")), None);
}

#[test]
fn find_placement_error_accepts_sound_placements() {
    assert_eq!(find_placement_error(&chars(START)), None);
    assert_eq!(find_placement_error(&chars("8/8/8/8/8/8/8/8")), None);
    assert_eq!(find_placement_error(&chars("4k3/8/8/8/8/8/4P3/4K3")), None);
    assert_eq!(find_placement_error(&chars("1p1p1p1p/p1p1p1p1/8/8/8/8/8/8")), None);
}

#[test]
fn find_placement_error_wants_eight_ranks() {
    assert_eq!(
        find_placement_error(&chars("rnbqkbnr/pppppppp/8/8/8/8/PPPPPPPP")),
        Some(FenError::BadPlacement)
    );
    assert_eq!(
        find_placement_error(&chars("rnbqkbnr/pppppppp/8/8/8/8/PPPPPPPP/RNBQKBNR/8")),
        Some(FenError::BadPlacement)
    );
    assert_eq!(find_placement_error(&chars("")), Some(FenError::BadPlacement));
    assert_eq!(find_placement_error(&chars("T")), Some(FenError::BadPlacement));
}

#[test]
fn find_placement_error_wants_eight_files_in_each_rank() {
    assert_eq!(find_placement_error(&chars("8/8/8/8/7/8/8/8")), Some(FenError::BadPlacement));
    assert_eq!(find_placement_error(&chars("8/8/8/8//8/8/8")), Some(FenError::BadPlacement));
    assert_eq!(find_placement_error(&chars("8/8/8/8/8/8/8/ppppppp")), Some(FenError::BadPlacement));
}

#[test]
fn find_placement_error_refuses_more_than_eight_files() {
    assert_eq!(find_placement_error(&chars("rnbqkbnrr/8/8/8/8/8/8/8")), Some(FenError::TooManyPieces));
    assert_eq!(find_placement_error(&chars("8p/8/8/8/8/8/8/8")), Some(FenError::TooManyPieces));
    assert_eq!(find_placement_error(&chars("8/8/8/8/8/8/8/45")), Some(FenError::TooManyPieces));
    assert_eq!(find_placement_error(&chars("7/8/8/8/8/8/8/p8")), Some(FenError::TooManyPieces));
}

#[test]
fn find_placement_error_refuses_two_counts_in_a_row() {
    assert_eq!(find_placement_error(&chars("8/8/8/8/44/8/8/8")), Some(FenError::BadPlacement));
    assert_eq!(find_placement_error(&chars("8/8/8/8/8/8/8/p115")), Some(FenError::BadPlacement));
}

#[test]
fn find_placement_error_names_the_stray_character() {
    assert_eq!(
        find_placement_error(&chars("rnbqkbnr/ppppTppp/8/8/8/8/PPPPPPPP/RNBQKBNR")),
        Some(FenError::UnknownPiece('T'))
    );
    assert_eq!(find_placement_error(&chars("8/8/9/8/8/8/8/8")), Some(FenError::UnknownPiece('9')));
    assert_eq!(find_placement_error(&chars("8/8/8/8/8/8/8/08")), Some(FenError::UnknownPiece('0')));
    assert_eq!(find_placement_error(&chars("8/8/8/8/8/8/x/88")), Some(FenError::UnknownPiece('x')));
}

#[test]
fn names_side_accepts_w_and_b_only() {
    assert!(names_side(&chars("w")));
    assert!(names_side(&chars("b")));
    assert!(!names_side(&chars("n")));
    assert!(!names_side(&chars("W")));
    assert!(!names_side(&chars("")));
    assert!(!names_side(&chars("wb")));
}

#[test]
fn names_target_accepts_a_dash_or_a_square() {
    assert!(names_target(&chars("-")));
    assert!(names_target(&chars("e3")));
    assert!(names_target(&chars("a1")));
    assert!(names_target(&chars("h8")));
    assert!(!names_target(&chars("h9")));
    assert!(!names_target(&chars("i1")));
    assert!(!names_target(&chars("a0")));
    assert!(!names_target(&chars("E3")));
    assert!(!names_target(&chars("e")));
    assert!(!names_target(&chars("")));
    assert!(!names_target(&chars("e3 ")));
    assert!(!names_target(&chars("é")));
    assert!(!names_target(&chars("--")));
}

#[test]
fn find_layout_error_accepts_sound_texts() {
    assert_eq!(find_layout_error("rnbqkbnr/pppppppp/8/8/8/8/PPPPPPPP/RNBQKBNR w KQkq - 0 0"), None);
    assert_eq!(
        find_layout_error("rnbqkbnr/pppppppp/8/8/4P3/8/PPPP1PPP/RNBQKBNR b KQkq e3 0 1"),
        None
    );
    assert_eq!(find_layout_error("4k3/8/8/8/8/8/4P3/4K3 w - - 5 39"), None);
}

#[test]
fn names_number_accepts_digits_with_or_without_a_plus_sign() {
    assert!(names_number(&chars("0")));
    assert!(names_number(&chars("39")));
    assert!(names_number(&chars("+3")));
    assert!(names_number(&chars("010")));
    assert!(names_number(&chars("18446744073709551615")));
    assert!(names_number(&chars("+0018446744073709551615")));
    assert!(!names_number(&chars("")));
    assert!(!names_number(&chars("+")));
    assert!(!names_number(&chars("-1")));
    assert!(!names_number(&chars("-0")));
    assert!(!names_number(&chars("++1")));
    assert!(!names_number(&chars("1+")));
    assert!(!names_number(&chars("zero")));
    assert!(!names_number(&chars("1 ")));
    assert!(!names_number(&chars("12a")));
    assert!(!names_number(&chars("٣")));
}

#[test]
fn names_number_refuses_what_does_not_fit_in_64_bits() {
    assert!(!names_number(&chars("18446744073709551616")));
    assert!(!names_number(&chars("18446744073709551620")));
    assert!(!names_number(&chars("99999999999999999999")));
    assert!(!names_number(&chars("184467440737095516150")));
    assert!(!names_number(&chars("18446744073709551616x")));
}

#[test]
fn names_number_agrees_with_the_parsing_of_unsigned_numbers() {
    let fields = [
        "0", "7", "+7", "-7", "", "+", "007", "18446744073709551615", "18446744073709551616",
        "1e3", " 1", "1_000", "0x10", "٣",
    ];
    for field in fields {
        assert_eq!(names_number(&chars(field)), field.parse::<u64>().is_ok());
    }
}

#[test]
fn find_layout_error_takes_any_castling_rights() {
    assert_eq!(find_layout_error("8/8/8/8/8/8/8/8 w xyz - 0 1"), None);
    assert_eq!(find_layout_error("8/8/8/8/8/8/8/8 b  - 0 1"), None);
    assert_eq!(find_layout_error("8/8/8/8/8/8/8/8 b KKKK-é - 0 1"), None);
}

#[test]
fn find_layout_error_wants_two_counters() {
    assert_eq!(find_layout_error("8/8/8/8/8/8/8/8 w - - zero 1"), Some(FenError::BadHalfmove));
    assert_eq!(find_layout_error("8/8/8/8/8/8/8/8 w - - 0 one"), Some(FenError::BadFullmove));
    assert_eq!(find_layout_error("8/8/8/8/8/8/8/8 w - - -1 x"), Some(FenError::BadHalfmove));
    assert_eq!(find_layout_error("8/8/8/8/8/8/8/8 w - - 0 "), Some(FenError::BadFullmove));
    assert_eq!(
        find_layout_error("8/8/8/8/8/8/8/8 w - - 0 18446744073709551616"),
        Some(FenError::BadFullmove)
    );
    assert_eq!(find_layout_error("8/8/8/8/8/8/8/8 w - e9 zero one"), Some(FenError::BadEnPassant));
}

#[test]
fn find_layout_error_wants_six_fields() {
    assert_eq!(
        find_layout_error("rnbqkbnr/pppppppp/8/8/8/8/PPPPPPPP/RNBQKBNR w KQkq - 0"),
        Some(FenError::NotEnoughParts)
    );
    assert_eq!(
        find_layout_error("rnbqkbnr/pppppppp/8/8/8/8/PPPPPPPP/RNBQKBNR w KQkq - 0 1 2"),
        Some(FenError::NotEnoughParts)
    );
    assert_eq!(
        find_layout_error("rnbqkbnr/pppppppp/8/8/8/8/PPPPPPPP/RNBQKBNR  w KQkq - 0 1"),
        Some(FenError::NotEnoughParts)
    );
    assert_eq!(find_layout_error(""), Some(FenError::NotEnoughParts));
}

#[test]
fn find_layout_error_reports_the_first_fault() {
    assert_eq!(find_layout_error("8/8/8/8/8/8/8 x h9 e9 0 1"), Some(FenError::BadPlacement));
    assert_eq!(find_layout_error("8/8/8/8/8/8/8/8 x KQkq e9 0 1"), Some(FenError::NoSuchSide));
    assert_eq!(find_layout_error("8/8/8/8/8/8/8/8 w KQkq e9 0 1"), Some(FenError::BadEnPassant));
    assert_eq!(find_layout_error("8/8/8/8/8/8/T/9 w KQkq - 0 1"), Some(FenError::UnknownPiece('T')));
    assert_eq!(find_layout_error("8/8/8/8/8/8/7/9p w KQkq - 0 1"), Some(FenError::UnknownPiece('9')));
    assert_eq!(find_layout_error("8/8/8/8/8/8/7/8p w KQkq - 0 1"), Some(FenError::TooManyPieces));
}
