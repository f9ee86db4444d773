//! The chess rules, from shakmaty, and the move and position facts the
//! analysis reads from them.

use vstd::prelude::*;
use shakmaty::Move as M;
use shakmaty::Position;

verus! {

/// A kind of chess piece.
#[derive(Debug, Clone, Copy, PartialEq, Eq, Structural)]
pub enum Role {
    Pawn,
    Knight,
    Bishop,
    Rook,
    Queen,
    King,
}

/// A side.
#[derive(Debug, Clone, Copy, PartialEq, Eq, Structural)]
pub enum Color {
    White,
    Black,
}

/// A move, with squares numbered from 0 (a1) to 63 (h8), rank by rank.
#[derive(Debug, Clone, Copy, PartialEq, Eq, Structural)]
pub enum ChessMove {
    /// A piece moves, capturing or not, promoting or not.
    Normal { role: Role, from: u8, to: u8, promotion: Option<Role> },
    /// A pawn takes en passant.
    EnPassant { from: u8, to: u8 },
    /// The king castles with the rook on `rook`.
    Castle { king: u8, rook: u8 },
    /// A piece is dropped on the board, as some variants allow.
    Put { role: Role, to: u8 },
}

/// A move as shakmaty gives it: roles by their codes 1 (pawn) to 6 (king),
/// squares by their index.
struct RawMove {
    kind: RawKind,
    role: Option<u8>,
    from: u8,
    to: u8,
    promotion: Option<u8>,
}

enum RawKind {
    Normal,
    EnPassant,
    Castle,
    Put,
}

pub open spec fn role_code_ok(c: u8) -> bool {
    1 <= c <= 6
}

spec fn raw_ok(m: RawMove) -> bool {
    &&& (m.role matches Some(c) ==> role_code_ok(c))
    &&& (m.kind is Normal || m.kind is Put ==> m.role is Some)
    &&& m.from < 64
    &&& m.to < 64
    &&& (m.promotion matches Some(p) ==> role_code_ok(p))
}

/// The role a code names, the king for a missing one.
spec fn code_role(c: Option<u8>) -> Role {
    match c {
        Some(x) => role_from_code(x),
        None => Role::King,
    }
}

/// The move that a shakmaty move converts to.
spec fn raw_model(m: RawMove) -> ChessMove {
    match m.kind {
        RawKind::Normal => ChessMove::Normal {
            role: code_role(m.role),
            from: m.from,
            to: m.to,
            promotion: match m.promotion {
                Some(p) => Some(role_from_code(p)),
                None => None,
            },
        },
        RawKind::EnPassant => ChessMove::EnPassant { from: m.from, to: m.to },
        RawKind::Castle => ChessMove::Castle { king: m.from, rook: m.to },
        RawKind::Put => ChessMove::Put { role: code_role(m.role), to: m.to },
    }
}

pub open spec fn role_from_code(c: u8) -> Role {
    if c == 1 {
        Role::Pawn
    } else if c == 2 {
        Role::Knight
    } else if c == 3 {
        Role::Bishop
    } else if c == 4 {
        Role::Rook
    } else if c == 5 {
        Role::Queen
    } else {
        Role::King
    }
}

impl ChessMove {
    /// Every square named lies on the board.
    pub open spec fn wf(self) -> bool {
        match self {
            ChessMove::Normal { from, to, .. } => from < 64 && to < 64,
            ChessMove::EnPassant { from, to } => from < 64 && to < 64,
            ChessMove::Castle { king, rook } => king < 64 && rook < 64,
            ChessMove::Put { to, .. } => to < 64,
        }
    }

    /// The kind of piece that moves: a pawn for en passant, the king for
    /// castling.
    pub open spec fn moved_role(self) -> Role {
        match self {
            ChessMove::Normal { role, .. } => role,
            ChessMove::EnPassant { .. } => Role::Pawn,
            ChessMove::Castle { .. } => Role::King,
            ChessMove::Put { role, .. } => role,
        }
    }
}

/// The piece that a move of the board moves, as the classifier sees it: none
/// for a drop.
pub open spec fn mover_of(m: ChessMove) -> Option<Role> {
    match m {
        ChessMove::Put { .. } => None,
        _ => Some(m.moved_role()),
    }
}

pub open spec fn file_char(f: int) -> char {
    "abcdefgh"@[f]
}

pub open spec fn rank_char(r: int) -> char {
    "12345678"@[r]
}

/// The name of a square, such as `e4`.
pub open spec fn square_name(sq: u8) -> Seq<char> {
    seq![file_char(sq as int % 8), rank_char(sq as int / 8)]
}

/// The letter UCI writes for a promotion; none for a king or pawn.
pub open spec fn promotion_text(p: Option<Role>) -> Seq<char> {
    match p {
        Some(Role::Queen) => seq!['q'],
        Some(Role::Rook) => seq!['r'],
        Some(Role::Bishop) => seq!['b'],
        Some(Role::Knight) => seq!['n'],
        _ => seq![],
    }
}

/// Where the king lands when castling: the g-file toward a rook on its
/// right, else the c-file, on the king's rank.
pub open spec fn castle_target(king: u8, rook: u8) -> u8 {
    if rook % 8 > king % 8 {
        ((king / 8) * 8 + 6) as u8
    } else {
        ((king / 8) * 8 + 2) as u8
    }
}

/// A move in UCI notation: origin, destination and any promotion letter;
/// castling as the king's own two squares; nothing for a drop.
pub open spec fn uci_text(m: ChessMove) -> Seq<char> {
    match m {
        ChessMove::Normal { from, to, promotion, .. } => square_name(from) + square_name(to)
            + promotion_text(promotion),
        ChessMove::EnPassant { from, to } => square_name(from) + square_name(to),
        ChessMove::Castle { king, rook } => square_name(king) + square_name(castle_target(king, rook)),
        ChessMove::Put { .. } => seq![],
    }
}

fn role_of_code(c: u8) -> (r: Role)
    requires
        role_code_ok(c),
    ensures
        r == role_from_code(c),
{
    if c == 1 {
        Role::Pawn
    } else if c == 2 {
        Role::Knight
    } else if c == 3 {
        Role::Bishop
    } else if c == 4 {
        Role::Rook
    } else if c == 5 {
        Role::Queen
    } else {
        Role::King
    }
}

fn optional_role(c: Option<u8>) -> (r: Option<Role>)
    requires
        c matches Some(x) ==> role_code_ok(x),
    ensures
        r == match c {
            Some(x) => Some(role_from_code(x)),
            None => None::<Role>,
        },
{
    match c {
        Some(x) => Some(role_of_code(x)),
        None => None,
    }
}

/// The name of a square, such as `e4`.
pub fn square_text(sq: u8) -> (r: String)
    requires
        sq < 64,
    ensures
        r@ == square_name(sq),
{
    let files = "abcdefgh";
    let ranks = "12345678";
    proof {
        reveal_strlit("abcdefgh");
        reveal_strlit("12345678");
    }
    let f = (sq % 8) as usize;
    let k = (sq / 8) as usize;
    let mut s = String::from_str(files.substring_char(f, f + 1));
    s.append(ranks.substring_char(k, k + 1));
    assert(s@ =~= square_name(sq));
    s
}

/// Converts a move to UCI notation: `e2e4`, `e7e8q`; castling as the king's
/// origin and destination (`e1g1`, `e1c1`); en passant by its two squares;
/// a drop has no such form and gives the empty string.
pub fn move_to_uci(m: &ChessMove) -> (r: String)
    requires
        m.wf(),
    ensures
        r@ == uci_text(*m),
{
    proof {
        reveal_strlit("q");
        reveal_strlit("r");
        reveal_strlit("b");
        reveal_strlit("n");
    }
    match *m {
        ChessMove::Normal { from, to, promotion, .. } => {
            let mut s = square_text(from);
            let dest = square_text(to);
            s.append(dest.as_str());
            match promotion {
                Some(Role::Queen) => s.append("q"),
                Some(Role::Rook) => s.append("r"),
                Some(Role::Bishop) => s.append("b"),
                Some(Role::Knight) => s.append("n"),
                _ => {},
            }
            assert(s@ =~= uci_text(*m));
            s
        },
        ChessMove::EnPassant { from, to } => {
            let mut s = square_text(from);
            let dest = square_text(to);
            s.append(dest.as_str());
            s
        },
        ChessMove::Castle { king, rook } => {
            let target: u8 = if rook % 8 > king % 8 {
                (king / 8) * 8 + 6
            } else {
                (king / 8) * 8 + 2
            };
            let mut s = square_text(king);
            let dest = square_text(target);
            s.append(dest.as_str());
            s
        },
        ChessMove::Put { .. } => String::new(),
    }
}

/// The piece that a move moves, as the classifier sees it: a pawn for en
/// passant, the king for castling, none for a drop.
pub fn moved_piece(m: &ChessMove) -> (r: Option<Role>)
    ensures
        r == mover_of(*m),
{
    match *m {
        ChessMove::Normal { role, .. } => Some(role),
        ChessMove::EnPassant { .. } => Some(Role::Pawn),
        ChessMove::Castle { .. } => Some(Role::King),
        ChessMove::Put { .. } => None,
    }
}

/// Whether a list of moves in standard algebraic notation can be played in
/// turn from the initial position: each reads as SAN, names exactly one legal
/// move in the position reached so far, and that move is played.
pub uninterp spec fn replays(moves: Seq<Seq<char>>) -> bool;

/// The FEN of the position that the moves, played in turn from the initial
/// position, reach; an en passant square is written only where such a
/// capture is legal.
pub uninterp spec fn position_fen(moves: Seq<Seq<char>>) -> Seq<char>;

/// The move that the last of the moves names, in the position that the ones
/// before it reach.
pub uninterp spec fn san_move(moves: Seq<Seq<char>>) -> ChessMove;

/// The number of pieces on the board after the moves.
pub uninterp spec fn pieces_after(moves: Seq<Seq<char>>) -> int;

/// The number of legal moves after the moves.
pub uninterp spec fn legal_moves_after(moves: Seq<Seq<char>>) -> int;

/// Whether white is to move after the moves.
pub uninterp spec fn white_moves_after(moves: Seq<Seq<char>>) -> bool;

/// Whether the side to move is in check after the moves.
pub uninterp spec fn check_after(moves: Seq<Seq<char>>) -> bool;

/// Whether the side to move is checkmated after the moves.
pub uninterp spec fn checkmate_after(moves: Seq<Seq<char>>) -> bool;

/// Whether the side to move is stalemated after the moves.
pub uninterp spec fn stalemate_after(moves: Seq<Seq<char>>) -> bool;

/// A position reached from the initial one, together with the moves, in
/// standard algebraic notation, that were played to reach it, and the last
/// of them as shakmaty read it.
#[verifier::external_body]
pub struct Board {
    pos: shakmaty::Chess,
    moves: Vec<String>,
    last: Option<shakmaty::Move>,
}

/// The moves played on a board, in order.
pub uninterp spec fn played(b: Board) -> Seq<Seq<char>>;

impl Board {
    /// Relies on `shakmaty::Chess::default`: the standard initial position,
    /// with no move played; the empty list plays trivially.
    #[verifier::external_body]
    pub fn new() -> (r: Board)
        ensures
            played(r) == Seq::<Seq<char>>::empty(),
            replays(played(r)),
    {
        Board { pos: shakmaty::Chess::default(), moves: Vec::new(), last: None }
    }
}

/// Relies on `San::from_str`, `San::to_move` and `Position::play`: reads
/// `text` as SAN, finds the one legal move it names, and plays it. Succeeds
/// exactly when the moves played so far followed by `text` replay; on
/// failure the board is left as it was.
#[verifier::external_body]
pub(crate) fn play_san(board: &mut Board, text: &str) -> (r: bool)
    ensures
        r <==> replays(played(*old(board)).push(text@)),
        r ==> played(*final(board)) == played(*old(board)).push(text@),
        !r ==> played(*final(board)) == played(*old(board)),
{
    let san = match text.parse::<shakmaty::san::San>() { Ok(s) => s, Err(_) => return false };
    let m = match san.to_move(&board.pos) { Ok(m) => m, Err(_) => return false };
    match board.pos.clone().play(m) { Ok(p) => board.pos = p, Err(_) => return false }
    board.moves.push(text.to_string());
    board.last = Some(m);
    true
}

/// Relies on the definition of `shakmaty::Move`, for the move that
/// `play_san` read last: each variant with its fields; a `Square` is its
/// index 0..=63 (`repr(u8)`) and a `Role` its discriminant 1 (pawn) to 6
/// (king).
#[verifier::external_body]
fn raw_last_move(board: &Board) -> (r: RawMove)
    requires
        played(*board).len() > 0,
    ensures
        raw_ok(r),
        raw_model(r) == san_move(played(*board)),
{
    match board.last.unwrap() {
        M::Normal { role, from, to, promotion, .. } => RawMove { kind: RawKind::Normal, role: Some(role as u8), from: from as u8, to: to as u8, promotion: promotion.map(|p| p as u8) },
        M::EnPassant { from, to } => RawMove { kind: RawKind::EnPassant, role: None, from: from as u8, to: to as u8, promotion: None },
        M::Castle { king, rook } => RawMove { kind: RawKind::Castle, role: None, from: king as u8, to: rook as u8, promotion: None },
        M::Put { role, to } => RawMove { kind: RawKind::Put, role: Some(role as u8), from: to as u8, to: to as u8, promotion: None },
    }
}

/// The last move played on the board, in this library's terms.
pub fn last_move(board: &Board) -> (r: ChessMove)
    requires
        played(*board).len() > 0,
    ensures
        r == san_move(played(*board)),
        r.wf(),
{
    let raw = raw_last_move(board);
    match raw.kind {
        RawKind::Normal => ChessMove::Normal {
            role: role_of_code(raw.role.unwrap()),
            from: raw.from,
            to: raw.to,
            promotion: optional_role(raw.promotion),
        },
        RawKind::EnPassant => ChessMove::EnPassant { from: raw.from, to: raw.to },
        RawKind::Castle => ChessMove::Castle { king: raw.from, rook: raw.to },
        RawKind::Put => ChessMove::Put { role: role_of_code(raw.role.unwrap()), to: raw.to },
    }
}

/// Relies on `Fen::from_position` and its `Display`: the FEN of the board's
/// position, with an en passant square only where such a capture is legal.
#[verifier::external_body]
pub(crate) fn fen_of(board: &Board) -> (r: String)
    ensures
        r@ == position_fen(played(*board)),
{
    shakmaty::fen::Fen::from_position(&board.pos, shakmaty::EnPassantMode::Legal).to_string()
}

/// The standard initial position, with no move played.
pub fn starting_position() -> (r: Board)
    ensures
        played(r) == Seq::<Seq<char>>::empty(),
{
    Board::new()
}

/// Relies on `Board::occupied` and `Bitboard::count`: the number of pieces
/// on the board, one bit for each of the 64 squares.
#[verifier::external_body]
pub(crate) fn occupied_count(board: &Board) -> (r: usize)
    ensures
        r == pieces_after(played(*board)),
        r <= 64,
{
    board.pos.board().occupied().count()
}

/// Relies on `Position::legal_moves`: the number of legal moves, which a
/// `MoveList` (an `ArrayVec` of capacity 270, or 450 with variants) bounds.
#[verifier::external_body]
pub(crate) fn legal_move_count(board: &Board) -> (r: usize)
    ensures
        r == legal_moves_after(played(*board)),
        r <= 450,
{
    board.pos.legal_moves().len()
}

/// Relies on `Position::turn` and `Color::is_white`: whether white moves.
#[verifier::external_body]
pub(crate) fn white_to_move(board: &Board) -> (r: bool)
    ensures
        r == white_moves_after(played(*board)),
{
    board.pos.turn().is_white()
}

/// Relies on `Position::is_check`.
#[verifier::external_body]
pub(crate) fn in_check(board: &Board) -> (r: bool)
    ensures
        r == check_after(played(*board)),
{
    board.pos.is_check()
}

/// Relies on `Position::is_checkmate`.
#[verifier::external_body]
pub(crate) fn in_checkmate(board: &Board) -> (r: bool)
    ensures
        r == checkmate_after(played(*board)),
{
    board.pos.is_checkmate()
}

/// Relies on `Position::is_stalemate`.
#[verifier::external_body]
pub(crate) fn in_stalemate(board: &Board) -> (r: bool)
    ensures
        r == stalemate_after(played(*board)),
{
    board.pos.is_stalemate()
}

/// Basic facts about a position.
#[derive(Debug)]
pub struct PositionInfo {
    /// The number of pieces on the board.
    pub piece_count: u32,
    /// The number of legal moves.
    pub legal_move_count: u32,
    /// The side to move.
    pub side_to_move: Color,
    pub is_check: bool,
    pub is_checkmate: bool,
    pub is_stalemate: bool,
}

/// Gathers the basic facts about a position.
pub fn analyze_position(position: &Board) -> (r: PositionInfo)
    ensures
        r.piece_count == pieces_after(played(*position)),
        r.legal_move_count == legal_moves_after(played(*position)),
        r.side_to_move == (if white_moves_after(played(*position)) { Color::White } else { Color::Black }),
        r.is_check == check_after(played(*position)),
        r.is_checkmate == checkmate_after(played(*position)),
        r.is_stalemate == stalemate_after(played(*position)),
        r.piece_count <= 64,
        r.legal_move_count <= 450,
{
    let pieces = occupied_count(position);
    let moves = legal_move_count(position);
    let side = if white_to_move(position) { Color::White } else { Color::Black };
    PositionInfo {
        piece_count: pieces as u32,
        legal_move_count: moves as u32,
        side_to_move: side,
        is_check: in_check(position),
        is_checkmate: in_checkmate(position),
        is_stalemate: in_stalemate(position),
    }
}

} // verus!
