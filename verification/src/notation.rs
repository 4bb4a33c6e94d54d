//! The shape of a position in Forsyth-Edwards notation: six fields with a
//! space between each two, the first of them the placement, eight ranks
//! with a `/` between each two.

use vstd::prelude::*;
use crate::error::FenError;

verus! {

/// The parts of a text between its separators: a separator starts a new
/// part, any other character joins the last one. A text without a
/// separator is one part; an empty text is one empty part.
pub open spec fn parts_of(text: Seq<char>, separator: char) -> Seq<Seq<char>>
    decreases text.len(),
{
    if text.len() == 0 {
        seq![Seq::<char>::empty()]
    } else {
        let before = parts_of(text.drop_last(), separator);
        if text.last() == separator {
            before.push(Seq::<char>::empty())
        } else {
            before.drop_last().push(before.last().push(text.last()))
        }
    }
}

/// The parts put together again, with a separator between each two.
pub open spec fn joined(parts: Seq<Seq<char>>, separator: char) -> Seq<char>
    decreases parts.len(),
{
    if parts.len() == 0 {
        Seq::<char>::empty()
    } else if parts.len() == 1 {
        parts[0]
    } else {
        joined(parts.drop_last(), separator).push(separator) + parts.last()
    }
}

/// Parting a text loses nothing and leaves no separator behind: there is
/// at least one part, no part holds the separator, and the parts joined
/// by the separator are the text.
pub proof fn parts_join_to_text(text: Seq<char>, separator: char)
    ensures
        parts_of(text, separator).len() >= 1,
        forall|k: int, j: int|
            0 <= k < parts_of(text, separator).len() && 0 <= j < parts_of(text, separator)[k].len()
                ==> #[trigger] parts_of(text, separator)[k][j] != separator,
        joined(parts_of(text, separator), separator) == text,
    decreases text.len(),
{
    let parts = parts_of(text, separator);
    if text.len() == 0 {
        assert(joined(parts, separator) == text);
    } else {
        let before = parts_of(text.drop_last(), separator);
        parts_join_to_text(text.drop_last(), separator);
        let c = text.last();
        if c == separator {
            assert(parts.drop_last() == before);
            assert(joined(parts, separator) == text.drop_last().push(c) + Seq::<char>::empty());
            assert(text.drop_last().push(c) == text);
        } else if before.len() == 1 {
            assert(parts[0] == before[0].push(c));
            assert(text.drop_last().push(c) == text);
        } else {
            assert(parts.drop_last() == before.drop_last());
            assert(joined(parts, separator) == (joined(before.drop_last(), separator).push(
                separator,
            ) + before.last()).push(c));
            assert(text.drop_last().push(c) == text);
        }
    }
}

/// The texts that a sequence of vectors of characters holds.
pub open spec fn texts_of(parts: Seq<Vec<char>>) -> Seq<Seq<char>> {
    Seq::new(parts.len(), |i: int| parts[i]@)
}

/// The characters of a text, in order.
pub fn chars_of(text: &str) -> (chars: Vec<char>)
    ensures
        chars@ == text@,
{
    let mut chars: Vec<char> = Vec::new();
    for c in it: text.chars()
        invariant
            it.seq() == text@,
            chars@ == it.seq().take(it.index()),
    {
        chars.push(c);
    }
    chars
}

/// Splits a text at each separator.
pub fn split(text: &Vec<char>, separator: char) -> (parts: Vec<Vec<char>>)
    ensures
        texts_of(parts@) == parts_of(text@, separator),
        parts.len() >= 1,
{
    let mut done: Vec<Vec<char>> = Vec::new();
    let mut current: Vec<char> = Vec::new();
    let mut i: usize = 0;
    while i < text.len()
        invariant
            i <= text.len(),
            texts_of(done@).push(current@) == parts_of(text@.take(i as int), separator),
        decreases text.len() - i,
    {
        let c: char = text[i];
        let ghost before = texts_of(done@).push(current@);
        proof {
            let prefix = text@.take(i + 1);
            assert(prefix.drop_last() == text@.take(i as int));
            assert(prefix.last() == c);
        }
        if c == separator {
            done.push(current);
            current = Vec::new();
            assert(texts_of(done@) == before);
        } else {
            current.push(c);
            assert(texts_of(done@).push(current@) == before.drop_last().push(
                before.last().push(c),
            ));
        }
        i += 1;
    }
    assert(text@.take(i as int) == text@);
    let ghost all = texts_of(done@).push(current@);
    done.push(current);
    assert(texts_of(done@) == all);
    done
}

/// Whether a character is one of the twelve piece letters: an upper case
/// letter for a white piece, a lower case one for a black piece.
pub open spec fn is_piece_letter(c: char) -> bool {
    ||| c == 'P' || c == 'N' || c == 'B' || c == 'R' || c == 'Q' || c == 'K'
    ||| c == 'p' || c == 'n' || c == 'b' || c == 'r' || c == 'q' || c == 'k'
}

/// Whether a character is a count of empty squares: a digit from 1 to 8.
pub open spec fn is_count(c: char) -> bool {
    '1' <= c <= '8'
}

/// How many files a character of a rank fills: one for a piece letter,
/// its value for a count, none for anything else.
pub open spec fn width(c: char) -> int {
    if is_piece_letter(c) {
        1
    } else if is_count(c) {
        c as int - '0' as int
    } else {
        0
    }
}

/// How many files the characters of a rank fill together.
pub open spec fn files_of(rank: Seq<char>) -> int
    decreases rank.len(),
{
    if rank.len() == 0 {
        0
    } else {
        files_of(rank.drop_last()) + width(rank.last())
    }
}

/// Whether a rank holds two counts in a row. One run of empty squares is
/// written as one count.
pub open spec fn counts_meet(rank: Seq<char>) -> bool {
    exists|i: int| 0 < i < rank.len() && is_count(rank[i - 1]) && is_count(#[trigger] rank[i])
}

/// Whether a character has no place in a placement: it is neither the
/// separator of ranks, nor a piece letter, nor a count.
pub open spec fn is_stray(c: char) -> bool {
    c != '/' && !is_piece_letter(c) && !is_count(c)
}

/// The first character of a placement that has no place in it.
pub open spec fn first_stray(placement: Seq<char>) -> Option<char>
    decreases placement.len(),
{
    if placement.len() == 0 {
        None
    } else if is_stray(placement[0]) {
        Some(placement[0])
    } else {
        first_stray(placement.drop_first())
    }
}

/// What is wrong with a placement, if anything. A placement is eight
/// ranks of piece letters and counts; each rank fills exactly eight
/// files, and no two counts stand side by side.
pub open spec fn placement_error(placement: Seq<char>) -> Option<FenError> {
    let ranks = parts_of(placement, '/');
    if ranks.len() != 8 {
        Some(FenError::BadPlacement)
    } else if first_stray(placement) is Some {
        Some(FenError::UnknownPiece(first_stray(placement)->0))
    } else if exists|k: int| 0 <= k < 8 && files_of(#[trigger] ranks[k]) > 8 {
        Some(FenError::TooManyPieces)
    } else if exists|k: int| 0 <= k < 8 && rank_is_off(#[trigger] ranks[k]) {
        Some(FenError::BadPlacement)
    } else {
        None
    }
}

/// Whether a rank fails to fill exactly eight files, or holds two counts
/// in a row.
pub open spec fn rank_is_off(rank: Seq<char>) -> bool {
    files_of(rank) != 8 || counts_meet(rank)
}

/// Whether a field names the side to play: `w` or `b`.
pub open spec fn is_side(field: Seq<char>) -> bool {
    field.len() == 1 && (field[0] == 'w' || field[0] == 'b')
}

/// Whether a field gives an en passant target: `-` for none, or a file
/// from `a` to `h` followed by a rank from `1` to `8`.
pub open spec fn is_target(field: Seq<char>) -> bool {
    ||| field.len() == 1 && field[0] == '-'
    ||| field.len() == 2 && 'a' <= field[0] <= 'h' && '1' <= field[1] <= '8'
}

/// Whether a character is a decimal digit.
pub open spec fn is_digit(c: char) -> bool {
    '0' <= c <= '9'
}

/// The digits of a counter: the field itself, less a plus sign in front
/// of it.
pub open spec fn digits_of(field: Seq<char>) -> Seq<char> {
    if field.len() > 0 && field[0] == '+' {
        field.drop_first()
    } else {
        field
    }
}

/// The number that a row of decimal digits stands for.
pub open spec fn number_of(digits: Seq<char>) -> int
    decreases digits.len(),
{
    if digits.len() == 0 {
        0
    } else {
        number_of(digits.drop_last()) * 10 + (digits.last() as int - '0' as int)
    }
}

/// Whether a field is a counter: one or more decimal digits, with or
/// without a plus sign in front, that stand for a number of at most
/// 64 bits.
pub open spec fn is_number(field: Seq<char>) -> bool {
    let digits = digits_of(field);
    &&& digits.len() > 0
    &&& forall|i: int| 0 <= i < digits.len() ==> is_digit(#[trigger] digits[i])
    &&& number_of(digits) <= u64::MAX
}

/// What is wrong with the shape of a text, if anything: the number of
/// its fields, then the placement, the side to play, the en passant
/// target, the halfmove clock and the fullmove number, in this order. Any
/// text will do for the castling rights.
pub open spec fn layout_error(text: Seq<char>) -> Option<FenError> {
    let fields = parts_of(text, ' ');
    if fields.len() != 6 {
        Some(FenError::NotEnoughParts)
    } else if placement_error(fields[0]) is Some {
        placement_error(fields[0])
    } else if !is_side(fields[1]) {
        Some(FenError::NoSuchSide)
    } else if !is_target(fields[3]) {
        Some(FenError::BadEnPassant)
    } else if !is_number(fields[4]) {
        Some(FenError::BadHalfmove)
    } else if !is_number(fields[5]) {
        Some(FenError::BadFullmove)
    } else {
        None
    }
}

/// The number that the start of a row of digits stands for is not above
/// the number that the whole row stands for.
pub proof fn number_grows(digits: Seq<char>, n: int)
    requires
        0 <= n <= digits.len(),
        forall|i: int| 0 <= i < digits.len() ==> is_digit(#[trigger] digits[i]),
    ensures
        0 <= number_of(digits.take(n)) <= number_of(digits),
    decreases digits.len(),
{
    if digits.len() == 0 {
        assert(digits.take(n) == digits);
    } else {
        let front = digits.drop_last();
        assert(is_digit(digits[digits.len() - 1]));
        assert forall|i: int| 0 <= i < front.len() implies is_digit(#[trigger] front[i]) by {
            assert(front[i] == digits[i]);
        }
        if n == digits.len() {
            assert(digits.take(n) == digits);
            number_grows(front, n - 1);
        } else {
            number_grows(front, n);
            assert(front.take(n) == digits.take(n));
        }
    }
}

/// The files that the start of a rank fills are among those that the
/// whole rank fills.
pub proof fn files_grow(rank: Seq<char>, n: int)
    requires
        0 <= n <= rank.len(),
    ensures
        0 <= files_of(rank.take(n)) <= files_of(rank),
    decreases rank.len(),
{
    if n == rank.len() {
        assert(rank.take(n) == rank);
        if rank.len() > 0 {
            files_grow(rank.drop_last(), n - 1);
            assert(rank.drop_last().take(n - 1) == rank.drop_last());
        }
    } else {
        files_grow(rank.drop_last(), n);
        assert(rank.drop_last().take(n) == rank.take(n));
    }
}

fn piece_letter(c: char) -> (b: bool)
    ensures
        b == is_piece_letter(c),
{
    c == 'P' || c == 'N' || c == 'B' || c == 'R' || c == 'Q' || c == 'K' || c == 'p' || c == 'n'
        || c == 'b' || c == 'r' || c == 'q' || c == 'k'
}

fn count(c: char) -> (b: bool)
    ensures
        b == is_count(c),
{
    '1' <= c && c <= '8'
}

fn char_width(c: char) -> (w: usize)
    ensures
        w == width(c),
        w <= 8,
{
    if piece_letter(c) {
        1
    } else if count(c) {
        (c as u32 - '0' as u32) as usize
    } else {
        0
    }
}

/// The first character of a placement that has no place in it.
pub fn find_stray(placement: &Vec<char>) -> (found: Option<char>)
    ensures
        found == first_stray(placement@),
{
    let mut i: usize = 0;
    assert(placement@.skip(0) == placement@);
    while i < placement.len()
        invariant
            i <= placement.len(),
            first_stray(placement@) == first_stray(placement@.skip(i as int)),
        decreases placement.len() - i,
    {
        let c: char = placement[i];
        proof {
            assert(placement@.skip(i as int)[0] == c);
            assert(placement@.skip(i as int).drop_first() == placement@.skip(i + 1));
        }
        if c != '/' && !piece_letter(c) && !count(c) {
            return Some(c);
        }
        i += 1;
    }
    None
}

/// How many files a rank fills, as far as that matters: the number
/// itself up to eight, and nine for anything beyond.
pub fn count_files(rank: &Vec<char>) -> (files: usize)
    ensures
        files_of(rank@) <= 8 ==> files == files_of(rank@),
        files_of(rank@) > 8 ==> files == 9,
{
    let mut files: usize = 0;
    let mut i: usize = 0;
    while i < rank.len()
        invariant
            i <= rank.len(),
            files == files_of(rank@.take(i as int)),
            files <= 8,
        decreases rank.len() - i,
    {
        let w: usize = char_width(rank[i]);
        proof {
            assert(rank@.take(i + 1).drop_last() == rank@.take(i as int));
            files_grow(rank@, i + 1);
        }
        if files + w > 8 {
            return 9;
        }
        files += w;
        i += 1;
    }
    assert(rank@.take(i as int) == rank@);
    files
}

/// Whether a rank holds two counts in a row.
pub fn has_meeting_counts(rank: &Vec<char>) -> (found: bool)
    ensures
        found == counts_meet(rank@),
{
    let mut i: usize = 1;
    while i < rank.len()
        invariant
            1 <= i,
            forall|j: int| 0 < j < i && j < rank.len() ==> !(is_count(rank@[j - 1]) && is_count(
                #[trigger] rank@[j],
            )),
        decreases rank.len() - i,
    {
        if count(rank[i - 1]) && count(rank[i]) {
            return true;
        }
        i += 1;
    }
    false
}

/// What is wrong with a placement, if anything.
pub fn find_placement_error(placement: &Vec<char>) -> (error: Option<FenError>)
    ensures
        error == placement_error(placement@),
{
    let ranks = split(placement, '/');
    if ranks.len() != 8 {
        return Some(FenError::BadPlacement);
    }
    if let Some(c) = find_stray(placement) {
        return Some(FenError::UnknownPiece(c));
    }
    let ghost parts = parts_of(placement@, '/');
    let mut k: usize = 0;
    while k < 8
        invariant
            k <= 8,
            ranks.len() == 8,
            texts_of(ranks@) == parts,
            parts == parts_of(placement@, '/'),
            first_stray(placement@) is None,
            forall|j: int| 0 <= j < k ==> files_of(#[trigger] parts[j]) <= 8,
        decreases 8 - k,
    {
        assert(parts[k as int] == ranks[k as int]@);
        if count_files(&ranks[k]) > 8 {
            return Some(FenError::TooManyPieces);
        }
        k += 1;
    }
    k = 0;
    while k < 8
        invariant
            k <= 8,
            ranks.len() == 8,
            texts_of(ranks@) == parts,
            parts == parts_of(placement@, '/'),
            first_stray(placement@) is None,
            forall|j: int| 0 <= j < 8 ==> files_of(#[trigger] parts[j]) <= 8,
            forall|j: int| 0 <= j < k ==> !rank_is_off(#[trigger] parts[j]),
        decreases 8 - k,
    {
        assert(parts[k as int] == ranks[k as int]@);
        if count_files(&ranks[k]) != 8 || has_meeting_counts(&ranks[k]) {
            return Some(FenError::BadPlacement);
        }
        k += 1;
    }
    None
}

/// Whether a field names the side to play.
pub fn names_side(field: &Vec<char>) -> (ok: bool)
    ensures
        ok == is_side(field@),
{
    field.len() == 1 && (field[0] == 'w' || field[0] == 'b')
}

/// Whether a field gives an en passant target.
pub fn names_target(field: &Vec<char>) -> (ok: bool)
    ensures
        ok == is_target(field@),
{
    (field.len() == 1 && field[0] == '-') || (field.len() == 2 && 'a' <= field[0] && field[0]
        <= 'h' && '1' <= field[1] && field[1] <= '8')
}

/// Whether a field is a counter.
pub fn names_number(field: &Vec<char>) -> (ok: bool)
    ensures
        ok == is_number(field@),
{
    let start: usize = if field.len() > 0 && field[0] == '+' { 1 } else { 0 };
    if start == field.len() {
        return false;
    }
    let ghost digits = digits_of(field@);
    assert(digits == field@.skip(start as int));
    let mut value: u64 = 0;
    let mut i: usize = start;
    while i < field.len()
        invariant
            start <= i <= field.len(),
            digits == digits_of(field@),
            digits == field@.skip(start as int),
            forall|j: int| 0 <= j < i - start ==> is_digit(#[trigger] digits[j]),
            value == number_of(digits.take(i - start)),
        decreases field.len() - i,
    {
        let c: char = field[i];
        assert(digits[i - start] == c);
        if !('0' <= c && c <= '9') {
            return false;
        }
        let digit: u64 = (c as u32 - '0' as u32) as u64;
        proof {
            assert(digits.take(i - start + 1).drop_last() == digits.take(i - start));
            assert(number_of(digits.take(i - start + 1)) == value * 10 + digit);
        }
        if value > (u64::MAX - digit) / 10 {
            proof {
                if forall|j: int| 0 <= j < digits.len() ==> is_digit(#[trigger] digits[j]) {
                    number_grows(digits, i - start + 1);
                }
            }
            return false;
        }
        value = value * 10 + digit;
        i += 1;
    }
    assert(digits.take(i - start) == digits);
    true
}

/// What is wrong with the shape of a text, if anything.
pub fn find_layout_error(text: &str) -> (error: Option<FenError>)
    ensures
        error == layout_error(text@),
{
    let chars = chars_of(text);
    let fields = split(&chars, ' ');
    if fields.len() != 6 {
        return Some(FenError::NotEnoughParts);
    }
    let ghost parts = parts_of(text@, ' ');
    assert(parts[0] == fields[0]@);
    assert(parts[1] == fields[1]@);
    assert(parts[3] == fields[3]@);
    assert(parts[4] == fields[4]@);
    assert(parts[5] == fields[5]@);
    let placement = find_placement_error(&fields[0]);
    if placement.is_some() {
        return placement;
    }
    if !names_side(&fields[1]) {
        return Some(FenError::NoSuchSide);
    }
    if !names_target(&fields[3]) {
        return Some(FenError::BadEnPassant);
    }
    if !names_number(&fields[4]) {
        return Some(FenError::BadHalfmove);
    }
    if !names_number(&fields[5]) {
        return Some(FenError::BadFullmove);
    }
    None
}

} // verus!
