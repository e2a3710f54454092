//! The boundary to the chess rules engine.
//!
//! Positions are values of `pleco::Board`. The session logic never looks inside
//! one: it asks the engine to play a move, whose turn it is, and whether the
//! player to move is mated. Those answers depend on nothing but the position,
//! and the contracts here are stated over the position's notation (its FEN
//! text).
//!
//! The notation describes a board fully but for its counters. The engine
//! counts the half-moves played, and the notation shows only the move number
//! and the player to move; the two agree as long as the count is odd exactly
//! when Black is to move. The engine also counts the moves made on a board
//! since it was parsed and since it was copied, which the notation does not
//! show; neither is more than the half-moves played. All that holds of every
//! board the engine parses or reaches by playing moves, and `counted` says it.
//! What depends on the counters is stated only of counted boards.
//!
//! Nothing in this module is proved. Each function below calls the engine, and
//! its contract records what the engine's source and documentation say of that
//! call. The engine plays moves only from boards that are `fit_to_play`; the
//! functions that play from a board, or search its moves, ask for that.

use vstd::prelude::*;
use pleco::BitBoard;
use pleco::Board;
use pleco::PieceType;
use pleco::Player;
use pleco::SQ;
use crate::position::{
    counted, fit_to_play, shape_is_safe, side_to_move, sound, Man, Wing,
};
use crate::side::Side;

verus! {

/// The engine's position type, carried through as an opaque value.
#[verifier::external_type_specification]
#[verifier::external_body]
pub struct ExBoard(pleco::Board);

/// The notation (FEN text) that a board holds: what `Board::fen` renders for
/// it.
pub uninterp spec fn notation_of(board: Board) -> Seq<char>;

/// What `Board::apply_uci_move` makes of a move, given as UCI text, in the
/// position with the given notation: the notation of the position after the
/// move where the text is one of the legal moves there, and `None` where it is
/// not.
pub uninterp spec fn uci_outcome(notation: Seq<char>, uci_move: Seq<char>) -> Option<Seq<char>>;

/// What `Board::checkmate` answers in the position with the given notation:
/// whether the player to move is in check and has no legal move.
pub uninterp spec fn is_mate(notation: Seq<char>) -> bool;

/// What `Board::from_fen` makes of a text: the notation of the board it
/// builds, and `None` where it refuses the text.
pub uninterp spec fn parse_outcome(text: Seq<char>) -> Option<Seq<char>>;

/// What `Board::count_piece` counts: the player's pieces of that kind.
pub uninterp spec fn piece_count(notation: Seq<char>, side: Side, man: Man) -> u8;

/// What `Board::king_sq` gives for a player: the square of the king, counted
/// from a1 = 0 along the ranks to h8 = 63.
pub uninterp spec fn king_square(notation: Seq<char>, side: Side) -> u8;

/// What `Board::get_occupied_player` gives: the squares that hold a piece of
/// the player, one bit for each square.
pub uninterp spec fn occupied_by(notation: Seq<char>, side: Side) -> u64;

/// What `Board::piece_bb` gives: the squares that hold a piece of the player
/// and of that kind, one bit for each square.
pub uninterp spec fn men(notation: Seq<char>, side: Side, man: Man) -> u64;

/// What `Board::attackers_to` gives: the squares of the pieces, of either
/// player, that attack `square` when the squares of `occupied` are taken.
pub uninterp spec fn attackers(notation: Seq<char>, square: u8, occupied: u64) -> u64;

/// What `Board::can_castle` answers: whether the player still has the right
/// to castle on that wing.
pub uninterp spec fn castle_right(notation: Seq<char>, side: Side, wing: Wing) -> bool;

/// What `Board::ep_square` gives: the square a pawn may be taken on in
/// passing, and 64 where there is none.
pub uninterp spec fn en_passant_square(notation: Seq<char>) -> u8;

/// What `Board::moves_played` gives for a board: the half-moves that the
/// engine has counted.
pub uninterp spec fn half_moves(board: Board) -> u16;

/// What `Board::ply` gives for a board: the moves made on it since it was
/// parsed.
pub uninterp spec fn moves_since_parsed(board: Board) -> u16;

/// What `Board::depth` gives for a board: the moves made on it since it was
/// copied.
pub uninterp spec fn moves_since_copied(board: Board) -> u16;

/// The half-moves played in the position with the given notation: what
/// `Board::moves_played` gives for a counted board that renders as it.
pub uninterp spec fn plies(notation: Seq<char>) -> u16;

/// What `Board::rule_50` gives: the half-moves since a capture or a pawn move.
pub uninterp spec fn halfmove_clock(notation: Seq<char>) -> i16;

/// The notation of the standard starting position.
pub open spec fn start_notation() -> Seq<char> {
    "rnbqkbnr/pppppppp/8/8/8/8/PPPPPPPP/RNBQKBNR w KQkq - 0 1"@
}

/// Calls `Board::start_pos`. The engine builds that board from the standard
/// opening notation and documents that it renders as the same text. It is the
/// position every game is played from, with both counters at zero.
#[verifier::external_body]
pub(crate) fn start_position() -> (board: Board)
    ensures
        notation_of(board) == start_notation(),
        fit_to_play(board),
        plies(notation_of(board)) == 0,
        halfmove_clock(notation_of(board)) == 0,
{
    Board::start_pos()
}

/// Calls `Board::clone`, which is the engine's shallow clone: the copy holds
/// the same pieces, player to move, castling rights, en passant square and
/// move counters, so it renders as the same notation and has counted as many
/// half-moves and as many moves since it was parsed. No move has been made on
/// the copy yet.
#[verifier::external_body]
pub(crate) fn copy_position(board: &Board) -> (copy: Board)
    ensures
        notation_of(copy) == notation_of(*board),
        half_moves(copy) == half_moves(*board),
        moves_since_parsed(copy) == moves_since_parsed(*board),
        moves_since_copied(copy) == 0,
{
    board.clone()
}

/// Calls `Board::apply_uci_move`. The engine looks the text up among the legal
/// moves of the position: where it finds it, it plays the move and answers
/// `true`; where it does not, it answers `false` and leaves the board as it
/// was. Which moves are legal, and what position a move leads to, follow from
/// the notation of a counted board. A legal move leads from a sound position
/// to a sound one, adds one to each of the board's three counts of moves and
/// changes the player to move, and adds one to the half-move clock or sets it
/// to zero. The engine
/// collects the legal moves in a list of 248 entries or more, which the moves
/// of a position that is `playable` fit.
#[verifier::external_body]
pub(crate) fn apply_uci(board: &mut Board, uci_move: &str) -> (legal: bool)
    requires
        fit_to_play(*old(board)),
    ensures
        counted(*final(board)),
        legal == uci_outcome(notation_of(*old(board)), uci_move@).is_some(),
        notation_of(*final(board)) == match uci_outcome(notation_of(*old(board)), uci_move@) {
            Some(next) => next,
            None => notation_of(*old(board)),
        },
        legal ==> sound(notation_of(*final(board))),
        legal ==> plies(notation_of(*final(board))) == plies(notation_of(*old(board))) + 1,
        legal ==> 0 <= halfmove_clock(notation_of(*final(board))) <= halfmove_clock(
            notation_of(*old(board)),
        ) + 1,
{
    board.apply_uci_move(uci_move)
}

/// Calls `Board::turn` and maps the engine's player to `Side`. The engine
/// renders the player to move as the letter after the notation's first space.
#[verifier::external_body]
pub(crate) fn turn_of(board: &Board) -> (side: Side)
    ensures
        side == side_to_move(notation_of(*board)),
{
    match board.turn() {
        Player::White => Side::White,
        Player::Black => Side::Black,
    }
}

/// Calls `Board::checkmate`, which the engine computes from the checks on the
/// king of the player to move and that player's legal moves.
#[verifier::external_body]
pub(crate) fn mate_in(board: &Board) -> (mate: bool)
    requires
        fit_to_play(*board),
    ensures
        mate == is_mate(notation_of(*board)),
{
    board.checkmate()
}

/// Calls `Board::fen`, which renders the board as its notation.
#[verifier::external_body]
pub(crate) fn render(board: &Board) -> (notation: String)
    ensures
        notation@ == notation_of(*board),
{
    board.fen()
}

/// Calls `Board::from_fen`. The engine panics on a text with a letter it does
/// not know among the castling rights, with a player who has not exactly one
/// king, with a rank that goes on after its eighth square, or with a move
/// number it cannot count from; `shape_is_safe` leaves those texts out. On
/// every other text it answers with a board or refuses. It sets the count of
/// half-moves from the move number and the player to move, and no move has
/// been made on the board yet.
#[verifier::external_body]
pub(crate) fn parse_position(text: &str) -> (parsed: Option<Board>)
    requires
        shape_is_safe(text@),
    ensures
        match parsed {
            Some(board) => parse_outcome(text@) == Some(notation_of(board)) && counted(board),
            None => parse_outcome(text@) is None,
        },
{
    match Board::from_fen(text) {
        Ok(board) => Some(board),
        Err(_) => None,
    }
}

/// Calls `Board::count_piece`.
#[verifier::external_body]
pub(crate) fn count_of(board: &Board, side: Side, man: Man) -> (count: u8)
    ensures
        count == piece_count(notation_of(*board), side, man),
{
    let player = match side {
        Side::White => Player::White,
        Side::Black => Player::Black,
    };
    match man {
        Man::Pawn => board.count_piece(player, PieceType::P),
        Man::Knight => board.count_piece(player, PieceType::N),
        Man::Bishop => board.count_piece(player, PieceType::B),
        Man::Rook => board.count_piece(player, PieceType::R),
        Man::Queen => board.count_piece(player, PieceType::Q),
        Man::King => board.count_piece(player, PieceType::K),
    }
}

/// Calls `Board::king_sq`, which needs the player to have exactly one king and
/// gives a square of the board.
#[verifier::external_body]
pub(crate) fn king_square_of(board: &Board, side: Side) -> (square: u8)
    requires
        piece_count(notation_of(*board), side, Man::King) == 1,
    ensures
        square == king_square(notation_of(*board), side),
        square < 64,
{
    match side {
        Side::White => board.king_sq(Player::White).0,
        Side::Black => board.king_sq(Player::Black).0,
    }
}

/// Calls `Board::get_occupied_player`.
#[verifier::external_body]
pub(crate) fn occupied_by_of(board: &Board, side: Side) -> (squares: u64)
    ensures
        squares == occupied_by(notation_of(*board), side),
{
    match side {
        Side::White => board.get_occupied_player(Player::White).0,
        Side::Black => board.get_occupied_player(Player::Black).0,
    }
}

/// Calls `Board::piece_bb`.
#[verifier::external_body]
pub(crate) fn men_of(board: &Board, side: Side, man: Man) -> (squares: u64)
    ensures
        squares == men(notation_of(*board), side, man),
{
    let player = match side {
        Side::White => Player::White,
        Side::Black => Player::Black,
    };
    match man {
        Man::Pawn => board.piece_bb(player, PieceType::P).0,
        Man::Knight => board.piece_bb(player, PieceType::N).0,
        Man::Bishop => board.piece_bb(player, PieceType::B).0,
        Man::Rook => board.piece_bb(player, PieceType::R).0,
        Man::Queen => board.piece_bb(player, PieceType::Q).0,
        Man::King => board.piece_bb(player, PieceType::K).0,
    }
}

/// Calls `Board::attackers_to` for a square of the board.
#[verifier::external_body]
pub(crate) fn attackers_of(board: &Board, square: u8, occupied: u64) -> (squares: u64)
    requires
        square < 64,
    ensures
        squares == attackers(notation_of(*board), square, occupied),
{
    board.attackers_to(SQ(square), BitBoard(occupied)).0
}

/// Calls `Board::can_castle`.
#[verifier::external_body]
pub(crate) fn castle_right_of(board: &Board, side: Side, wing: Wing) -> (right: bool)
    ensures
        right == castle_right(notation_of(*board), side, wing),
{
    match (side, wing) {
        (Side::White, Wing::King) => board.can_castle(Player::White, pleco::core::CastleType::KingSide),
        (Side::White, Wing::Queen) => board.can_castle(Player::White, pleco::core::CastleType::QueenSide),
        (Side::Black, Wing::King) => board.can_castle(Player::Black, pleco::core::CastleType::KingSide),
        (Side::Black, Wing::Queen) => board.can_castle(Player::Black, pleco::core::CastleType::QueenSide),
    }
}

/// Calls `Board::ep_square`.
#[verifier::external_body]
pub(crate) fn en_passant_square_of(board: &Board) -> (square: u8)
    ensures
        square == en_passant_square(notation_of(*board)),
{
    board.ep_square().0
}

/// Calls `Board::moves_played`. The engine renders the count as a move
/// number, and the count of a counted board follows from its notation.
#[verifier::external_body]
pub(crate) fn plies_of(board: &Board) -> (count: u16)
    ensures
        count == half_moves(*board),
        counted(*board) ==> count == plies(notation_of(*board)),
{
    board.moves_played()
}

/// Calls `Board::ply`.
#[verifier::external_body]
pub(crate) fn moves_since_parsed_of(board: &Board) -> (count: u16)
    ensures
        count == moves_since_parsed(*board),
{
    board.ply()
}

/// Calls `Board::depth`.
#[verifier::external_body]
pub(crate) fn moves_since_copied_of(board: &Board) -> (count: u16)
    ensures
        count == moves_since_copied(*board),
{
    board.depth()
}

/// Calls `Board::rule_50`.
#[verifier::external_body]
pub(crate) fn halfmove_clock_of(board: &Board) -> (count: i16)
    ensures
        count == halfmove_clock(notation_of(*board)),
{
    board.rule_50()
}

} // verus!
