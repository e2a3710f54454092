//! What the session needs to know of a position before it hands it to the
//! engine.
//!
//! The engine plays moves only from positions that chess allows, counts the
//! half-moves of a game in 16 bits and collects the moves of a position in a
//! list of fixed length. `playable` says which positions those are, over what
//! the engine reports of a board, `fit_to_play` says which boards, and
//! `is_playable` tests it. The engine's parser fails hard on a few texts;
//! `shape_is_safe` says which texts it can be given, and `check_shape` tests
//! that.

use vstd::prelude::*;
use vstd::string::StrSliceExecFns;
use pleco::Board;
use crate::engine::{
    attackers, attackers_of, castle_right, castle_right_of, count_of, en_passant_square,
    en_passant_square_of, half_moves, halfmove_clock, halfmove_clock_of, king_square,
    king_square_of, men, men_of, moves_since_copied, moves_since_copied_of, moves_since_parsed,
    moves_since_parsed_of, notation_of, occupied_by, occupied_by_of, piece_count, plies, plies_of,
    turn_of,
};
use crate::side::Side;

verus! {

/// A kind of piece.
#[derive(Clone, Copy, Debug, PartialEq, Eq, Structural)]
pub enum Man {
    Pawn,
    Knight,
    Bishop,
    Rook,
    Queen,
    King,
}

/// A wing of the board to castle on.
#[derive(Clone, Copy, Debug, PartialEq, Eq, Structural)]
pub enum Wing {
    King,
    Queen,
}

/// The text after the first space of `text`; empty where there is no space.
pub open spec fn after_first_space(text: Seq<char>) -> Seq<char>
    decreases text.len(),
{
    if text.len() == 0 {
        text
    } else if text[0] == ' ' {
        text.drop_first()
    } else {
        after_first_space(text.drop_first())
    }
}

/// The player to move in the position with the given notation: Black where
/// the letter after the first space is `b`, White otherwise.
pub open spec fn side_to_move(notation: Seq<char>) -> Side {
    let rest = after_first_space(notation);
    if rest.len() > 0 && rest[0] == 'b' {
        Side::Black
    } else {
        Side::White
    }
}

/// The bit that stands for a square, counted from a1 = 0 to h8 = 63.
pub open spec fn square_bit(square: u8) -> u64 {
    1u64 << (square as u64)
}

/// The bit that stands for a square of the board.
pub fn bit_of(square: u8) -> (bit: u64)
    requires
        square < 64,
    ensures
        bit == square_bit(square),
{
    1u64 << (square as u64)
}

/// Whether the king of the player who is not to move is attacked by a piece
/// of the player to move.
pub open spec fn waiting_king_attacked(notation: Seq<char>) -> bool {
    let mover = side_to_move(notation);
    let occupied = occupied_by(notation, Side::White) | occupied_by(notation, Side::Black);
    let hunters = attackers(notation, king_square(notation, mover.opponent_spec()), occupied);
    hunters & occupied_by(notation, mover) != 0
}

/// Whether a right to castle goes with a king and a rook on their first
/// squares.
pub open spec fn right_is_backed(
    notation: Seq<char>,
    side: Side,
    wing: Wing,
    king_home: u8,
    rook_home: u8,
) -> bool {
    castle_right(notation, side, wing) ==> king_square(notation, side) == king_home && men(
        notation,
        side,
        Man::Rook,
    ) & square_bit(rook_home) != 0
}

/// Whether every right to castle goes with a king and a rook on their first
/// squares.
pub open spec fn castling_is_backed(notation: Seq<char>) -> bool {
    &&& right_is_backed(notation, Side::White, Wing::King, 4, 7)
    &&& right_is_backed(notation, Side::White, Wing::Queen, 4, 0)
    &&& right_is_backed(notation, Side::Black, Wing::King, 60, 63)
    &&& right_is_backed(notation, Side::Black, Wing::Queen, 60, 56)
}

/// Whether the en passant square, where there is one, is empty, lies on the
/// mover's sixth rank and has a pawn of the other player in front of it.
pub open spec fn en_passant_is_backed(notation: Seq<char>) -> bool {
    let square = en_passant_square(notation);
    let occupied = occupied_by(notation, Side::White) | occupied_by(notation, Side::Black);
    square == 64 || match side_to_move(notation) {
        Side::White => 40 <= square < 48 && occupied & square_bit(square) == 0 && men(
            notation,
            Side::Black,
            Man::Pawn,
        ) & square_bit((square - 8) as u8) != 0,
        Side::Black => 16 <= square < 24 && occupied & square_bit(square) == 0 && men(
            notation,
            Side::White,
            Man::Pawn,
        ) & square_bit((square + 8) as u8) != 0,
    }
}

/// A position that chess allows, as far as the engine relies on it: each
/// player has one king, the player who has just moved is not in check, and
/// the castling rights and the en passant square fit the pieces.
pub open spec fn sound(notation: Seq<char>) -> bool {
    &&& piece_count(notation, Side::White, Man::King) == 1
    &&& piece_count(notation, Side::Black, Man::King) == 1
    &&& !waiting_king_attacked(notation)
    &&& castling_is_backed(notation)
    &&& en_passant_is_backed(notation)
}

/// The most moves that the pieces of `side` can have between them, wherever
/// they stand: 27 for a queen, 14 for a rook, 13 for a bishop, 8 for a knight,
/// 12 for a pawn (three squares to reach, four pieces to promote to) and 10
/// for the king (eight steps and two ways to castle).
pub open spec fn most_moves(notation: Seq<char>, side: Side) -> int {
    27 * piece_count(notation, side, Man::Queen) + 14 * piece_count(notation, side, Man::Rook) + 13
        * piece_count(notation, side, Man::Bishop) + 8 * piece_count(notation, side, Man::Knight)
        + 12 * piece_count(notation, side, Man::Pawn) + 10
}

/// Whether the moves of the player to move are sure to fit the engine's list
/// of moves, which holds 248 entries or more.
pub open spec fn moves_fit(notation: Seq<char>) -> bool {
    most_moves(notation, side_to_move(notation)) <= 248
}

/// A position the engine can play one more move from: a sound one, whose
/// moves fit the engine's list and whose counters have room for the move.
pub open spec fn playable(notation: Seq<char>) -> bool {
    &&& sound(notation)
    &&& moves_fit(notation)
    &&& plies(notation) < 65535
    &&& 0 <= halfmove_clock(notation) < 32767
}

/// Whether the engine's counts go together: the half-moves played are odd
/// exactly when Black is to move, and no more moves have been made on the
/// board, since it was parsed or since it was copied, than half-moves have
/// been played.
pub open spec fn counted(board: Board) -> bool {
    &&& (half_moves(board) % 2 == 1) == (side_to_move(notation_of(board)) == Side::Black)
    &&& moves_since_parsed(board) <= half_moves(board)
    &&& moves_since_copied(board) <= half_moves(board)
}

/// A board the engine can play one more move from: a counted one that holds
/// a playable position.
pub open spec fn fit_to_play(board: Board) -> bool {
    counted(board) && playable(notation_of(board))
}

/// The number of moves that a game from a playable position can record: after
/// that many the engine can still try one more, and no counter has
/// overflowed.
pub open spec fn capacity(notation: Seq<char>) -> int {
    let by_plies = 65534 - plies(notation);
    let by_clock = 32766 - halfmove_clock(notation);
    if by_plies <= by_clock {
        by_plies
    } else {
        by_clock
    }
}

/// Whether the position `board` can stand `played` moves into a game that
/// started from the position `initial`: it is sound and its counters have
/// grown by no more than the moves played.
pub open spec fn on_course(initial: Seq<char>, board: Seq<char>, played: int) -> bool {
    &&& sound(board)
    &&& plies(board) <= plies(initial) + played
    &&& 0 <= halfmove_clock(board) <= halfmove_clock(initial) + played
}

/// Whether a right to castle goes with a king and a rook on their first
/// squares.
fn right_backed(board: &Board, side: Side, wing: Wing, king_home: u8, rook_home: u8) -> (backed:
    bool)
    requires
        piece_count(notation_of(*board), side, Man::King) == 1,
        rook_home < 64,
    ensures
        backed == right_is_backed(notation_of(*board), side, wing, king_home, rook_home),
{
    if castle_right_of(board, side, wing) {
        king_square_of(board, side) == king_home && men_of(board, side, Man::Rook) & bit_of(
            rook_home,
        ) != 0
    } else {
        true
    }
}

/// Whether the en passant square fits the pieces.
fn en_passant_backed(board: &Board, mover: Side) -> (backed: bool)
    requires
        mover == side_to_move(notation_of(*board)),
    ensures
        backed == en_passant_is_backed(notation_of(*board)),
{
    let square = en_passant_square_of(board);
    if square == 64 {
        return true;
    }
    let occupied = occupied_by_of(board, Side::White) | occupied_by_of(board, Side::Black);
    match mover {
        Side::White => 40 <= square && square < 48 && occupied & bit_of(square) == 0 && men_of(
            board,
            Side::Black,
            Man::Pawn,
        ) & bit_of(square - 8) != 0,
        Side::Black => 16 <= square && square < 24 && occupied & bit_of(square) == 0 && men_of(
            board,
            Side::White,
            Man::Pawn,
        ) & bit_of(square + 8) != 0,
    }
}

/// Whether `board` holds a sound position.
pub fn is_sound(board: &Board) -> (yes: bool)
    ensures
        yes == sound(notation_of(*board)),
{
    if count_of(board, Side::White, Man::King) != 1 || count_of(board, Side::Black, Man::King)
        != 1 {
        return false;
    }
    let mover = turn_of(board);
    let occupied = occupied_by_of(board, Side::White) | occupied_by_of(board, Side::Black);
    let hunters = attackers_of(board, king_square_of(board, mover.opponent()), occupied);
    if hunters & occupied_by_of(board, mover) != 0 {
        return false;
    }
    right_backed(board, Side::White, Wing::King, 4, 7) && right_backed(
        board,
        Side::White,
        Wing::Queen,
        4,
        0,
    ) && right_backed(board, Side::Black, Wing::King, 60, 63) && right_backed(
        board,
        Side::Black,
        Wing::Queen,
        60,
        56,
    ) && en_passant_backed(board, mover)
}

/// Whether the moves of the player to move are sure to fit the engine's list.
pub fn moves_fit_of(board: &Board) -> (yes: bool)
    ensures
        yes == moves_fit(notation_of(*board)),
{
    let mover = turn_of(board);
    let queens = count_of(board, mover, Man::Queen) as u32;
    let rooks = count_of(board, mover, Man::Rook) as u32;
    let bishops = count_of(board, mover, Man::Bishop) as u32;
    let knights = count_of(board, mover, Man::Knight) as u32;
    let pawns = count_of(board, mover, Man::Pawn) as u32;
    27 * queens + 14 * rooks + 13 * bishops + 8 * knights + 12 * pawns + 10 <= 248
}

/// Whether the engine can play a move from `board`.
pub fn is_playable(board: &Board) -> (yes: bool)
    ensures
        yes == fit_to_play(*board),
{
    let count = plies_of(board);
    let odd = count % 2 == 1;
    let black = turn_of(board) == Side::Black;
    if odd != black || moves_since_parsed_of(board) > count || moves_since_copied_of(board)
        > count {
        return false;
    }
    let clock = halfmove_clock_of(board);
    is_sound(board) && moves_fit_of(board) && count < 65535 && 0 <= clock && clock < 32767
}

/// The number of moves that a game from `board` can record.
pub fn capacity_of(board: &Board) -> (moves: u16)
    requires
        fit_to_play(*board),
    ensures
        moves == capacity(notation_of(*board)),
{
    let by_plies: u16 = 65534 - plies_of(board);
    let by_clock: i16 = 32766 - halfmove_clock_of(board);
    if by_plies <= by_clock as u16 {
        by_plies
    } else {
        by_clock as u16
    }
}

/// What a scan of a text has found so far. Counts stop at the first value
/// that decides: the fields at 7, the kings at 2, the number at 40000.
#[derive(Clone, Copy, Debug, PartialEq, Eq, Structural)]
pub struct Shape {
    /// Whether every character so far is a space or a visible ASCII character.
    pub plain: bool,
    /// The fields begun so far; a field is a run of characters without a
    /// space.
    pub fields: u8,
    /// Whether the last character belongs to a field.
    pub in_field: bool,
    /// The letters `K` in the first field.
    pub white_kings: u8,
    /// The letters `k` in the first field.
    pub black_kings: u8,
    /// The squares counted in the part of the first field behind its last
    /// `/`: a digit counts its value, any other character one.
    pub rank_squares: u8,
    /// Whether fewer than eight squares had been counted in its part before
    /// each character of the first field.
    pub ranks_fit: bool,
    /// Whether the third field holds only `K`, `Q`, `k`, `q` and `-`.
    pub rights_known: bool,
    /// Whether the sixth field is a single `-`.
    pub number_is_dash: bool,
    /// Whether the sixth field holds only digits.
    pub number_is_digits: bool,
    /// The number that the digits of the sixth field spell.
    pub number: u32,
}

/// The scan before the first character.
pub open spec fn blank_shape() -> Shape {
    Shape {
        plain: true,
        fields: 0,
        in_field: false,
        white_kings: 0,
        black_kings: 0,
        rank_squares: 0,
        ranks_fit: true,
        rights_known: true,
        number_is_dash: false,
        number_is_digits: true,
        number: 0,
    }
}

/// `count` and one more, stopping at `limit`.
pub open spec fn one_more(count: u8, limit: u8) -> u8 {
    if count < limit {
        (count + 1) as u8
    } else {
        count
    }
}

/// The number with one more digit, stopping at 40000.
pub open spec fn with_digit(number: u32, letter: char) -> u32 {
    if number <= 3276 {
        (number * 10 + (letter as u32 - '0' as u32)) as u32
    } else {
        40000
    }
}

/// The squares that a character of a rank stands for: its value for a digit,
/// one for any other character.
pub open spec fn worth(letter: char) -> u8 {
    if '0' <= letter <= '9' {
        (letter as u32 - '0' as u32) as u8
    } else {
        1
    }
}

/// The squares counted in a rank after one more character. The count stays
/// where it is once it has reached eight.
pub open spec fn rank_after(squares: u8, letter: char) -> u8 {
    if letter == '/' {
        0
    } else if squares < 8 {
        (squares + worth(letter)) as u8
    } else {
        squares
    }
}

/// The scan after one more character.
pub open spec fn shape_step(shape: Shape, letter: char) -> Shape {
    if letter == ' ' {
        Shape { in_field: false, ..shape }
    } else {
        let plain = shape.plain && '!' <= letter <= '~';
        let fields = if shape.in_field {
            shape.fields
        } else {
            one_more(shape.fields, 7)
        };
        let first = !shape.in_field;
        let digit = '0' <= letter <= '9';
        Shape {
            plain,
            fields,
            in_field: true,
            white_kings: if fields == 1 && letter == 'K' {
                one_more(shape.white_kings, 2)
            } else {
                shape.white_kings
            },
            black_kings: if fields == 1 && letter == 'k' {
                one_more(shape.black_kings, 2)
            } else {
                shape.black_kings
            },
            rank_squares: if fields == 1 {
                rank_after(shape.rank_squares, letter)
            } else {
                shape.rank_squares
            },
            ranks_fit: shape.ranks_fit && (fields == 1 && letter != '/' ==> shape.rank_squares
                < 8),
            rights_known: shape.rights_known && (fields == 3 ==> letter == 'K' || letter == 'Q'
                || letter == 'k' || letter == 'q' || letter == '-'),
            number_is_dash: fields == 6 && first && letter == '-',
            number_is_digits: shape.number_is_digits && (fields == 6 ==> digit),
            number: if fields == 6 && digit {
                with_digit(shape.number, letter)
            } else {
                shape.number
            },
        }
    }
}

/// The scan of a whole text.
pub open spec fn shape_of(text: Seq<char>) -> Shape
    decreases text.len(),
{
    if text.len() == 0 {
        blank_shape()
    } else {
        shape_step(shape_of(text.drop_last()), text.last())
    }
}

/// Whether a text can be given to the engine's parser: it holds only spaces
/// and visible ASCII characters and has four to six fields; its first field
/// names one king for each player and has no rank that goes on after its
/// eighth square; its third field names castling rights and nothing else; and
/// its sixth field, where there is one, is `-` or a move number from 1 to
/// 32768.
pub open spec fn shape_is_safe(text: Seq<char>) -> bool {
    let shape = shape_of(text);
    &&& shape.plain
    &&& 4 <= shape.fields <= 6
    &&& shape.white_kings == 1
    &&& shape.black_kings == 1
    &&& shape.ranks_fit
    &&& shape.rights_known
    &&& shape.fields == 6 ==> shape.number_is_dash || (shape.number_is_digits && 1 <= shape.number
        <= 32768)
}

/// `count` and one more, stopping at `limit`.
fn next_count(count: u8, limit: u8) -> (next: u8)
    ensures
        next == one_more(count, limit),
{
    if count < limit {
        count + 1
    } else {
        count
    }
}

/// The scan after one more character.
fn advance(shape: Shape, letter: char) -> (next: Shape)
    ensures
        next == shape_step(shape, letter),
{
    if letter == ' ' {
        return Shape { in_field: false, ..shape };
    }
    let plain = shape.plain && '!' <= letter && letter <= '~';
    let fields = if shape.in_field {
        shape.fields
    } else {
        next_count(shape.fields, 7)
    };
    let first = !shape.in_field;
    let digit = '0' <= letter && letter <= '9';
    let known = letter == 'K' || letter == 'Q' || letter == 'k' || letter == 'q' || letter == '-';
    Shape {
        plain,
        fields,
        in_field: true,
        white_kings: if fields == 1 && letter == 'K' {
            next_count(shape.white_kings, 2)
        } else {
            shape.white_kings
        },
        black_kings: if fields == 1 && letter == 'k' {
            next_count(shape.black_kings, 2)
        } else {
            shape.black_kings
        },
        rank_squares: if fields != 1 {
            shape.rank_squares
        } else if letter == '/' {
            0
        } else if shape.rank_squares < 8 {
            if digit {
                shape.rank_squares + (letter as u32 - '0' as u32) as u8
            } else {
                shape.rank_squares + 1
            }
        } else {
            shape.rank_squares
        },
        ranks_fit: shape.ranks_fit && (fields != 1 || letter == '/' || shape.rank_squares < 8),
        rights_known: shape.rights_known && (fields != 3 || known),
        number_is_dash: fields == 6 && first && letter == '-',
        number_is_digits: shape.number_is_digits && (fields != 6 || digit),
        number: if fields == 6 && digit {
            if shape.number <= 3276 {
                shape.number * 10 + (letter as u32 - '0' as u32)
            } else {
                40000
            }
        } else {
            shape.number
        },
    }
}

/// Whether `text` can be given to the engine's parser.
pub fn check_shape(text: &str) -> (safe: bool)
    ensures
        safe == shape_is_safe(text@),
{
    let length = text.unicode_len();
    let mut shape = Shape {
        plain: true,
        fields: 0,
        in_field: false,
        white_kings: 0,
        black_kings: 0,
        rank_squares: 0,
        ranks_fit: true,
        rights_known: true,
        number_is_dash: false,
        number_is_digits: true,
        number: 0,
    };
    let mut seen: usize = 0;
    assert(text@.take(0) =~= Seq::empty());
    while seen < length
        invariant
            seen <= length,
            length == text@.len(),
            shape == shape_of(text@.take(seen as int)),
        decreases length - seen,
    {
        assert(text@.take(seen + 1).drop_last() =~= text@.take(seen as int));
        shape = advance(shape, text.get_char(seen));
        seen += 1;
    }
    assert(text@.take(length as int) =~= text@);
    shape.plain && 4 <= shape.fields && shape.fields <= 6 && shape.white_kings == 1
        && shape.black_kings == 1 && shape.ranks_fit && shape.rights_known && (shape.fields != 6
        || shape.number_is_dash || (shape.number_is_digits && 1 <= shape.number && shape.number
        <= 32768))
}

} // verus!
