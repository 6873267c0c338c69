use shakmaty::fen::{Fen, ParseFenError};
use shakmaty::san::SanPlus;
use shakmaty::uci::{ParseUciMoveError, UciMove};
use shakmaty::{
    CastlingMode, Chess, EnPassantMode, Position as ChessRules, PositionError,
    Role as ShakmatyRole, Square as ShakmatySquare,
};
use vstd::prelude::*;

use crate::text::joined;

verus! {

/// The side a piece belongs to, or the side to move.
#[derive(Clone, Copy, Debug, PartialEq, Eq, Structural)]
pub enum Color {
    White,
    Black,
}

/// The kind of a chess piece.
#[derive(Clone, Copy, Debug, PartialEq, Eq, Structural)]
pub enum Role {
    Pawn,
    Knight,
    Bishop,
    Rook,
    Queen,
    King,
}

/// A piece of a given color and role.
#[derive(Clone, Copy, Debug, PartialEq, Eq, Structural)]
pub struct Piece {
    pub color: Color,
    pub role: Role,
}

/// A square of the board, by file (0 = a) and rank (0 = first rank).
#[derive(Clone, Copy, Debug, PartialEq, Eq, Structural)]
pub struct Square {
    file: usize,
    rank: usize,
}

impl Square {
    #[verifier::type_invariant]
    spec fn on_board(self) -> bool {
        self.file < 8 && self.rank < 8
    }

    /// The file of the square, 0 for the a-file.
    pub closed spec fn file_of(self) -> int {
        self.file as int
    }

    /// The rank of the square, 0 for the first rank.
    pub closed spec fn rank_of(self) -> int {
        self.rank as int
    }

    /// The index of the square counted from a1 (0) along ranks to h8 (63).
    pub open spec fn index_of(self) -> int {
        self.rank_of() * 8 + self.file_of()
    }

    /// The square with the given coordinates, or `None` off the board.
    pub fn from_coords(file: usize, rank: usize) -> (r: Option<Square>)
        ensures
            r is Some <==> file < 8 && rank < 8,
            r matches Some(s) ==> s.file_of() == file && s.rank_of() == rank,
    {
        if file < 8 && rank < 8 {
            Some(Square { file, rank })
        } else {
            None
        }
    }

    /// The file of the square, 0 for the a-file.
    pub fn file(self) -> (r: usize)
        ensures
            r == self.file_of(),
            r < 8,
    {
        proof {
            use_type_invariant(&self);
        }
        self.file
    }

    /// The rank of the square, 0 for the first rank.
    pub fn rank(self) -> (r: usize)
        ensures
            r == self.rank_of(),
            r < 8,
    {
        proof {
            use_type_invariant(&self);
        }
        self.rank
    }

    /// The square with index `index` counted from a1 (0) along ranks to h8 (63).
    pub fn from_index(index: u8) -> (r: Square)
        requires
            index < 64,
        ensures
            r == square_at(index as int),
            r.file_of() == index % 8,
            r.rank_of() == index / 8,
    {
        Square { file: (index % 8) as usize, rank: (index / 8) as usize }
    }

    /// The index of the square counted from a1 (0) along ranks to h8 (63).
    pub fn index(self) -> (r: u8)
        ensures
            r == self.index_of(),
            r < 64,
            square_at(r as int) == self,
    {
        proof {
            use_type_invariant(&self);
        }
        (self.rank * 8 + self.file) as u8
    }
}

/// The square with the given index counted from a1 (0) along ranks to h8 (63).
pub closed spec fn square_at(index: int) -> Square {
    Square { file: (index % 8) as usize, rank: (index / 8) as usize }
}

/// The number by which shakmaty identifies a role (pawn 1 up to king 6).
pub open spec fn role_code(role: Role) -> u8 {
    match role {
        Role::Pawn => 1,
        Role::Knight => 2,
        Role::Bishop => 3,
        Role::Rook => 4,
        Role::Queen => 5,
        Role::King => 6,
    }
}

/// The role that shakmaty identifies by `code` (1..=6).
pub open spec fn role_of_code(code: u8) -> Role {
    if code == 1 {
        Role::Pawn
    } else if code == 2 {
        Role::Knight
    } else if code == 3 {
        Role::Bishop
    } else if code == 4 {
        Role::Rook
    } else if code == 5 {
        Role::Queen
    } else {
        Role::King
    }
}

/// The promotion code of a move: 0 for none, else the role's code.
pub open spec fn promotion_code(promotion: Option<Role>) -> u8 {
    match promotion {
        None => 0,
        Some(role) => role_code(role),
    }
}

/// The promotion that `code` stands for (0 for none).
pub open spec fn promotion_of_code(code: u8) -> Option<Role> {
    if code == 0 {
        None
    } else {
        Some(role_of_code(code))
    }
}

/// The color of the side that `white` says.
pub open spec fn color_of(white: bool) -> Color {
    if white {
        Color::White
    } else {
        Color::Black
    }
}

fn color_from_white(white: bool) -> (r: Color)
    ensures
        r == color_of(white),
{
    if white {
        Color::White
    } else {
        Color::Black
    }
}

fn role_from_code(code: u8) -> (r: Role)
    requires
        1 <= code <= 6,
    ensures
        r == role_of_code(code),
        role_code(r) == code,
{
    if code == 1 {
        Role::Pawn
    } else if code == 2 {
        Role::Knight
    } else if code == 3 {
        Role::Bishop
    } else if code == 4 {
        Role::Rook
    } else if code == 5 {
        Role::Queen
    } else {
        Role::King
    }
}

fn role_to_code(role: Role) -> (r: u8)
    ensures
        r == role_code(role),
        role_of_code(r) == role,
{
    match role {
        Role::Pawn => 1,
        Role::Knight => 2,
        Role::Bishop => 3,
        Role::Rook => 4,
        Role::Queen => 5,
        Role::King => 6,
    }
}

fn promotion_to_code(promotion: Option<Role>) -> (r: u8)
    ensures
        r == promotion_code(promotion),
        r <= 6,
{
    match promotion {
        None => 0,
        Some(role) => role_to_code(role),
    }
}

fn promotion_from_code(code: u8) -> (r: Option<Role>)
    requires
        code <= 6,
    ensures
        r == promotion_of_code(code),
{
    if code == 0 {
        None
    } else {
        Some(role_from_code(code))
    }
}

/// The piece of the given shakmaty color and role code.
pub open spec fn piece_of(white: bool, code: u8) -> Piece {
    Piece { color: color_of(white), role: role_of_code(code) }
}

fn piece_from_codes(white: bool, code: u8) -> (r: Piece)
    requires
        1 <= code <= 6,
    ensures
        r == piece_of(white, code),
{
    Piece { color: color_from_white(white), role: role_from_code(code) }
}

/// A move from one square to another, with the role a pawn promotes to.
#[derive(Clone, Copy, Debug, PartialEq, Eq, Structural)]
pub struct ChessMove {
    pub from: Square,
    pub to: Square,
    pub promotion: Option<Role>,
}

impl View for ChessMove {
    type V = ChessMove;

    open spec fn view(&self) -> ChessMove {
        *self
    }
}

/// Why a move could not be read, formatted or played.
#[derive(Debug)]
pub struct MoveError(String);

impl View for MoveError {
    type V = Seq<char>;

    closed spec fn view(&self) -> Seq<char> {
        self.0@
    }
}

impl MoveError {
    /// The description of the problem.
    pub fn message(&self) -> (r: &str)
        ensures
            r@ == self@,
    {
        self.0.as_str()
    }
}

/// Why a FEN text could not be turned into a position.
#[derive(Debug)]
pub struct FenError(String);

impl View for FenError {
    type V = Seq<char>;

    closed spec fn view(&self) -> Seq<char> {
        self.0@
    }
}

impl FenError {
    /// The description of the problem.
    pub fn message(&self) -> (r: &str)
        ensures
            r@ == self@,
    {
        self.0.as_str()
    }
}

/// `Ok` and `Err` contents of a result, each taken by its view.
pub open spec fn result_view<T: View, E: View>(r: Result<T, E>) -> Result<T::V, E::V> {
    match r {
        Ok(t) => Ok(t@),
        Err(e) => Err(e@),
    }
}

// ---------------------------------------------------------------------------
// What shakmaty computes: named where it takes pages, stated where not.
// ---------------------------------------------------------------------------

/// shakmaty's reading of a FEN text. `Ok` holds the FEN that shakmaty writes
/// (en passant square only when legal) for the standard chess position that
/// it sets up from the text; `Err((true, m))` when the text is not a FEN,
/// `Err((false, m))` when its setup is not a legal chess position, with `m`
/// shakmaty's description of the problem.
pub uninterp spec fn fen_setup(text: Seq<char>) -> Result<Seq<char>, (bool, Seq<char>)>;

/// The piece that shakmaty finds on square `square` (index from a1) of the
/// position read from `fen`: whether it is white, and the role's code.
pub uninterp spec fn fen_piece(fen: Seq<char>, square: u8) -> Option<(bool, u8)>;

/// Whether white is to move in the position read from `fen`.
pub uninterp spec fn fen_white_to_move(fen: Seq<char>) -> bool;

/// The legal moves that shakmaty lists, in its order, for the position read
/// from `fen`, each in UCI form (castling as the king's two-square move):
/// origin and destination square indexes, and the promotion code.
pub uninterp spec fn fen_legal_moves(fen: Seq<char>) -> Seq<(Option<u8>, Option<u8>, u8)>;

/// The FEN of the position after the move, given by squares and promotion
/// code, is played in the position read from `fen`; `None` when shakmaty
/// finds the move illegal there.
pub uninterp spec fn fen_play(fen: Seq<char>, from: u8, to: u8, promotion: u8) -> Option<Seq<char>>;

/// The standard algebraic notation, with check or mate suffix, of the move,
/// given by squares and promotion code, in the position read from `fen`;
/// `None` when shakmaty finds the move illegal there.
pub uninterp spec fn fen_san(fen: Seq<char>, from: u8, to: u8, promotion: u8) -> Option<Seq<char>>;

/// The index of the square named by a file letter (`a` to `h`) and a rank
/// digit (`1` to `8`), as UCI writes squares.
pub open spec fn square_named(file: char, rank: char) -> Option<u8> {
    if 'a' <= file <= 'h' && '1' <= rank <= '8' {
        Some(((rank as int - '1' as int) * 8 + (file as int - 'a' as int)) as u8)
    } else {
        None
    }
}

/// The code of the role named by a piece letter, in either case.
pub open spec fn role_named(letter: char) -> Option<u8> {
    if letter == 'p' || letter == 'P' {
        Some(1u8)
    } else if letter == 'n' || letter == 'N' {
        Some(2u8)
    } else if letter == 'b' || letter == 'B' {
        Some(3u8)
    } else if letter == 'r' || letter == 'R' {
        Some(4u8)
    } else if letter == 'q' || letter == 'Q' {
        Some(5u8)
    } else if letter == 'k' || letter == 'K' {
        Some(6u8)
    } else {
        None
    }
}

/// The reading of a UCI move text: origin and destination square indexes
/// where the move has them, and the promotion code; `None` when the text is
/// not UCI. Four characters are the null move `0000`, a drop such as `Q@f7`
/// (a destination only) or a plain move such as `e2e4`; five characters are
/// a move with a promotion letter, such as `e7e8q`.
pub open spec fn uci_parse(text: Seq<char>) -> Option<(Option<u8>, Option<u8>, u8)> {
    if text.len() == 4 {
        if text[0] == '0' && text[1] == '0' && text[2] == '0' && text[3] == '0' {
            Some((None, None, 0u8))
        } else if text[1] == '@' {
            match (role_named(text[0]), square_named(text[2], text[3])) {
                (Some(_), Some(to)) => Some((None, Some(to), 0u8)),
                _ => None,
            }
        } else {
            match (square_named(text[0], text[1]), square_named(text[2], text[3])) {
                (Some(from), Some(to)) => Some((Some(from), Some(to), 0u8)),
                _ => None,
            }
        }
    } else if text.len() == 5 {
        match (square_named(text[0], text[1]), square_named(text[2], text[3]), role_named(text[4])) {
            (Some(from), Some(to), Some(promotion)) => Some((Some(from), Some(to), promotion)),
            _ => None,
        }
    } else {
        None
    }
}

/// A UCI text names squares on the board and promotion codes of roles.
proof fn lemma_uci_codes_in_range(text: Seq<char>)
    ensures
        uci_parse(text) matches Some(codes) ==> uci_codes_in_range(codes),
{
}

/// Square indexes and promotion code in the ranges that shakmaty uses.
pub open spec fn uci_codes_in_range(codes: (Option<u8>, Option<u8>, u8)) -> bool {
    &&& (codes.0 matches Some(from) ==> from < 64)
    &&& (codes.1 matches Some(to) ==> to < 64)
    &&& codes.2 <= 6
}

/// The outcome of a FEN setup, each text taken by its view.
pub open spec fn setup_view(r: Result<String, (bool, String)>) -> Result<Seq<char>, (bool, Seq<char>)> {
    match r {
        Ok(s) => Ok(s@),
        Err((syntax, m)) => Err((syntax, m@)),
    }
}

/// Reads `text` as FEN with shakmaty (`Fen` from `str`), sets up standard
/// chess with `Fen::into_position(CastlingMode::Standard)` and writes the
/// position back with `Fen::from_position(.., EnPassantMode::Legal)`.
/// The contract names the outcome (`fen_setup`), the error carrying
/// shakmaty's error text.
#[verifier::external_body]
fn setup_from_fen(text: &str) -> (r: Result<String, (bool, String)>)
    ensures
        fen_setup(text@) == setup_view(r),
{
    let fen: Fen = text.parse().map_err(|e: ParseFenError| (true, e.to_string()))?;
    let chess: Chess = fen
        .into_position(CastlingMode::Standard)
        .map_err(|e: PositionError<Chess>| (false, e.to_string()))?;
    Ok(Fen::from_position(&chess, EnPassantMode::Legal).to_string())
}

/// Sets up the position of `fen` as `setup_from_fen` does and reads
/// `Board::piece_at` on the square with index `square`. It is `None` exactly
/// when the setup fails; a role is given by its shakmaty code, 1 to 6.
#[verifier::external_body]
fn piece_on(fen: &str, square: u8) -> (r: Option<Option<(bool, u8)>>)
    requires
        square < 64,
    ensures
        r is Some <==> fen_setup(fen@) is Ok,
        r matches Some(p) ==> p == fen_piece(fen@, square),
        r matches Some(Some(p)) ==> 1 <= p.1 <= 6,
{
    let chess: Chess = fen.parse::<Fen>().ok()?.into_position(CastlingMode::Standard).ok()?;
    let piece = chess.board().piece_at(ShakmatySquare::new(u32::from(square)));
    Some(piece.map(|p| (p.color.is_white(), u8::from(p.role))))
}

/// Sets up the position of `fen` as `setup_from_fen` does and reads
/// `Position::turn`. It is `None` exactly when the setup fails.
#[verifier::external_body]
fn white_to_move(fen: &str) -> (r: Option<bool>)
    ensures
        r is Some <==> fen_setup(fen@) is Ok,
        r matches Some(white) ==> white == fen_white_to_move(fen@),
{
    let chess: Chess = fen.parse::<Fen>().ok()?.into_position(CastlingMode::Standard).ok()?;
    Some(chess.turn().is_white())
}

/// Sets up the position of `fen` as `setup_from_fen` does and lists
/// `Position::legal_moves`, each turned into UCI with
/// `UciMove::from_standard`. It is `None` exactly when the setup fails.
#[verifier::external_body]
fn legal_moves_in(fen: &str) -> (r: Option<Vec<(Option<u8>, Option<u8>, u8)>>)
    ensures
        r is Some <==> fen_setup(fen@) is Ok,
        r matches Some(moves) ==> moves@ == fen_legal_moves(fen@),
        r matches Some(moves) ==> forall|i: int|
            0 <= i < moves@.len() ==> uci_codes_in_range(#[trigger] moves@[i]),
{
    let chess: Chess = fen.parse::<Fen>().ok()?.into_position(CastlingMode::Standard).ok()?;
    let moves = chess.legal_moves().into_iter().map(UciMove::from_standard);
    Some(moves.map(|u| (u.from().map(u8::from), u.to().map(u8::from), u.promotion().map_or(0, u8::from))).collect())
}

/// Sets up the position of `fen` as `setup_from_fen` does, checks the UCI
/// move with `UciMove::to_move`, plays it with `Position::play_unchecked`
/// and writes the new position as `setup_from_fen` does. It is `None` exactly
/// when the setup fails; an illegal move gives shakmaty's error text. The
/// move is refused exactly when `san_on` refuses it, both going by
/// `UciMove::to_move` on the same position; and playing it hands the turn to
/// the other side, as `play_unchecked` does.
#[verifier::external_body]
fn play_on(fen: &str, from: u8, to: u8, promotion: u8) -> (r: Option<Result<String, String>>)
    requires
        from < 64,
        to < 64,
        promotion <= 6,
    ensures
        r is Some <==> fen_setup(fen@) is Ok,
        r matches Some(Ok(s)) ==> fen_play(fen@, from, to, promotion) == Some(s@),
        r matches Some(Err(m)) ==> fen_play(fen@, from, to, promotion) is None && m@ == "illegal uci"@,
        r matches Some(x) ==> (x is Ok <==> fen_san(fen@, from, to, promotion) is Some),
        r matches Some(Ok(s)) ==> (fen_setup(s@) is Ok ==> fen_white_to_move(s@)
            == !fen_white_to_move(fen@)),
{
    let mut chess: Chess = fen.parse::<Fen>().ok()?.into_position(CastlingMode::Standard).ok()?;
    let (from, to) = (ShakmatySquare::new(u32::from(from)), ShakmatySquare::new(u32::from(to)));
    let uci = UciMove::Normal { from, to, promotion: ShakmatyRole::try_from(promotion).ok() };
    Some(match uci.to_move(&chess) {
        Ok(m) => {
            chess.play_unchecked(m);
            Ok(Fen::from_position(&chess, EnPassantMode::Legal).to_string())
        },
        Err(e) => Err(e.to_string()),
    })
}

/// Sets up the position of `fen` as `setup_from_fen` does, checks the UCI
/// move with `UciMove::to_move` and writes it with `SanPlus::from_move`. It
/// is `None` exactly when the setup fails; an illegal move gives shakmaty's
/// error text.
#[verifier::external_body]
fn san_on(fen: &str, from: u8, to: u8, promotion: u8) -> (r: Option<Result<String, String>>)
    requires
        from < 64,
        to < 64,
        promotion <= 6,
    ensures
        r is Some <==> fen_setup(fen@) is Ok,
        r matches Some(Ok(s)) ==> fen_san(fen@, from, to, promotion) == Some(s@),
        r matches Some(Err(m)) ==> fen_san(fen@, from, to, promotion) is None && m@ == "illegal uci"@,
{
    let chess: Chess = fen.parse::<Fen>().ok()?.into_position(CastlingMode::Standard).ok()?;
    let (from, to) = (ShakmatySquare::new(u32::from(from)), ShakmatySquare::new(u32::from(to)));
    let uci = UciMove::Normal { from, to, promotion: ShakmatyRole::try_from(promotion).ok() };
    Some(match uci.to_move(&chess) {
        Ok(m) => Ok(SanPlus::from_move(chess, m).to_string()),
        Err(e) => Err(e.to_string()),
    })
}

/// Reads `text` as a UCI move with shakmaty (`UciMove` from `str`, which
/// reads the text's bytes with `UciMove::from_ascii`), giving its origin,
/// destination (`UciMove::from`, `UciMove::to`) and promotion code; a text
/// that is not UCI gives shakmaty's error text. The contract claims that
/// shakmaty reads the text as `uci_parse` says: a character outside ASCII
/// fails there as its bytes fail in `from_ascii`.
#[verifier::external_body]
fn parse_uci(text: &str) -> (r: Result<(Option<u8>, Option<u8>, u8), String>)
    ensures
        r matches Ok(codes) ==> uci_parse(text@) == Some(codes),
        r matches Err(m) ==> uci_parse(text@) is None && m@ == "invalid uci"@,
{
    let uci: UciMove = text.parse().map_err(|e: ParseUciMoveError| e.to_string())?;
    Ok((uci.from().map(u8::from), uci.to().map(u8::from), uci.promotion().map_or(0, u8::from)))
}

// ---------------------------------------------------------------------------
// Moves and positions.
// ---------------------------------------------------------------------------

/// The move made of the given UCI parts, or why there is none.
pub open spec fn move_from_parts(codes: (Option<u8>, Option<u8>, u8)) -> Result<ChessMove, Seq<char>> {
    match codes.0 {
        None => Err("move must have an origin square"@),
        Some(from) => match codes.1 {
            None => Err("move must have a destination square"@),
            Some(to) => Ok(
                ChessMove {
                    from: square_at(from as int),
                    to: square_at(to as int),
                    promotion: promotion_of_code(codes.2),
                },
            ),
        },
    }
}

/// What reading `text` as a UCI move gives: the move, or the error message.
pub open spec fn uci_outcome(text: Seq<char>) -> Result<ChessMove, Seq<char>> {
    match uci_parse(text) {
        None => Err("invalid UCI move: "@ + "invalid uci"@),
        Some(codes) => move_from_parts(codes),
    }
}

/// The square index and promotion codes by which shakmaty takes a move.
pub open spec fn move_codes(m: ChessMove) -> (u8, u8, u8) {
    (m.from.index_of() as u8, m.to.index_of() as u8, promotion_code(m.promotion))
}

impl ChessMove {
    /// Reads a move in UCI notation, such as `e2e4` or `e7e8q`.
    pub fn from_uci(value: &str) -> (r: Result<ChessMove, MoveError>)
        ensures
            result_view(r) == uci_outcome(value@),
    {
        proof {
            lemma_uci_codes_in_range(value@);
        }
        match parse_uci(value) {
            Err(detail) => Err(MoveError(joined("invalid UCI move: ", detail.as_str()))),
            Ok(codes) => ChessMove::from_uci_parts(codes),
        }
    }

    fn from_uci_parts(codes: (Option<u8>, Option<u8>, u8)) -> (r: Result<ChessMove, MoveError>)
        requires
            uci_codes_in_range(codes),
        ensures
            result_view(r) == move_from_parts(codes),
    {
        let from = match codes.0 {
            Some(from) => Square::from_index(from),
            None => {
                return Err(MoveError(String::from_str("move must have an origin square")));
            },
        };
        let to = match codes.1 {
            Some(to) => Square::from_index(to),
            None => {
                return Err(MoveError(String::from_str("move must have a destination square")));
            },
        };
        Ok(ChessMove { from, to, promotion: promotion_from_code(codes.2) })
    }

    /// The role a pawn promotes to with this move, if any.
    pub fn promotion(&self) -> (r: Option<Role>)
        ensures
            r == self.promotion,
    {
        self.promotion
    }

    fn codes(&self) -> (r: (u8, u8, u8))
        ensures
            r == move_codes(*self),
            r.0 < 64,
            r.1 < 64,
            r.2 <= 6,
    {
        (self.from.index(), self.to.index(), promotion_to_code(self.promotion))
    }
}

/// A chess position, held as the FEN that shakmaty writes for it.
#[derive(Debug)]
pub struct Position {
    fen: String,
}

impl View for Position {
    type V = Seq<char>;

    closed spec fn view(&self) -> Seq<char> {
        self.fen@
    }
}

/// What reading `text` as FEN gives: the position's FEN, or the error message.
/// The FEN that shakmaty writes must itself set up again, as every position
/// of this type does.
pub open spec fn fen_outcome(text: Seq<char>) -> Result<Seq<char>, Seq<char>> {
    match fen_setup(text) {
        Err((syntax, detail)) => Err(fen_problem(syntax, detail)),
        Ok(fen) => match fen_setup(fen) {
            Err((syntax, detail)) => Err(fen_problem(syntax, detail)),
            Ok(_) => Ok(fen),
        },
    }
}

/// The message of a FEN that shakmaty rejects.
pub open spec fn fen_problem(syntax: bool, detail: Seq<char>) -> Seq<char> {
    if syntax {
        "invalid FEN: "@ + detail
    } else {
        "invalid chess position: "@ + detail
    }
}

/// The side to move in the position of `fen`.
pub open spec fn side_to_move_in(fen: Seq<char>) -> Color {
    color_of(fen_white_to_move(fen))
}

/// The piece on the square with index `square` in the position of `fen`.
pub open spec fn piece_in(fen: Seq<char>, square: u8) -> Option<Piece> {
    match fen_piece(fen, square) {
        None => None,
        Some((white, code)) => Some(piece_of(white, code)),
    }
}

/// The algebraic notation of move `m` in the position of `fen`, or the error message.
pub open spec fn algebraic_in(fen: Seq<char>, m: ChessMove) -> Result<Seq<char>, Seq<char>> {
    let (from, to, promotion) = move_codes(m);
    match fen_san(fen, from, to, promotion) {
        None => Err("illegal move: "@ + "illegal uci"@),
        Some(san) => Ok(san),
    }
}

/// The position after playing move `m` in the position of `fen`, or the error message.
pub open spec fn play_in(fen: Seq<char>, m: ChessMove) -> Result<Seq<char>, Seq<char>> {
    let (from, to, promotion) = move_codes(m);
    match fen_play(fen, from, to, promotion) {
        None => Err("illegal move: "@ + "illegal uci"@),
        Some(next) => match fen_setup(next) {
            Err((syntax, detail)) => Err(fen_problem(syntax, detail)),
            Ok(_) => Ok(next),
        },
    }
}

/// The move that `Position::legal_move` picks from shakmaty's list of legal
/// moves between two squares: the first promotion to a queen, else the last
/// match, else `fallback`.
pub open spec fn legal_choice(
    moves: Seq<(Option<u8>, Option<u8>, u8)>,
    from: Square,
    to: Square,
    fallback: Option<ChessMove>,
) -> Option<ChessMove>
    decreases moves.len(),
{
    if moves.len() == 0 {
        fallback
    } else {
        let (f, t, p) = moves[0];
        let rest = moves.drop_first();
        if f == Some(from.index_of() as u8) && t == Some(to.index_of() as u8) {
            let m = ChessMove { from, to, promotion: promotion_of_code(p) };
            if p == role_code(Role::Queen) {
                Some(m)
            } else {
                legal_choice(rest, from, to, Some(m))
            }
        } else {
            legal_choice(rest, from, to, fallback)
        }
    }
}

impl Position {
    #[verifier::type_invariant]
    spec fn set_up(self) -> bool {
        fen_setup(self.fen@) is Ok
    }

    /// Reads a position from FEN.
    pub fn from_fen(fen: &str) -> (r: Result<Position, FenError>)
        ensures
            result_view(r) == fen_outcome(fen@),
    {
        match setup_from_fen(fen) {
            Err((syntax, detail)) => Err(FenError(Position::problem(syntax, detail))),
            Ok(written) => match setup_from_fen(written.as_str()) {
                Err((syntax, detail)) => Err(FenError(Position::problem(syntax, detail))),
                Ok(_) => Ok(Position { fen: written }),
            },
        }
    }

    fn problem(syntax: bool, detail: String) -> (r: String)
        ensures
            r@ == fen_problem(syntax, detail@),
    {
        if syntax {
            joined("invalid FEN: ", detail.as_str())
        } else {
            joined("invalid chess position: ", detail.as_str())
        }
    }

    /// The FEN of the position.
    pub fn fen(&self) -> (r: &str)
        ensures
            r@ == self@,
    {
        self.fen.as_str()
    }

    /// The piece on the square of the given file and rank (0-based).
    pub fn piece_at(&self, file: usize, rank: usize) -> (r: Option<Piece>)
        requires
            file < 8,
            rank < 8,
        ensures
            r == piece_in(self@, (rank * 8 + file) as u8),
    {
        proof {
            use_type_invariant(self);
        }
        let square = (rank * 8 + file) as u8;
        match piece_on(self.fen.as_str(), square) {
            Some(Some((white, code))) => Some(piece_from_codes(white, code)),
            _ => None,
        }
    }

    /// The side to move.
    pub fn side_to_move(&self) -> (r: Color)
        ensures
            r == side_to_move_in(self@),
    {
        proof {
            use_type_invariant(self);
        }
        match white_to_move(self.fen.as_str()) {
            Some(white) => color_from_white(white),
            None => Color::White,
        }
    }

    /// The legal move from `from` to `to`, promoting to a queen where a pawn
    /// promotes.
    pub fn legal_move(&self, from: Square, to: Square) -> (r: Option<ChessMove>)
        ensures
            r == legal_choice(fen_legal_moves(self@), from, to, None),
    {
        proof {
            use_type_invariant(self);
        }
        let moves = match legal_moves_in(self.fen.as_str()) {
            Some(moves) => moves,
            None => {
                return None;
            },
        };
        let from_index = from.index();
        let to_index = to.index();
        let mut fallback: Option<ChessMove> = None;
        let mut i: usize = 0;
        assert(moves@.skip(0) == moves@);
        while i < moves.len()
            invariant
                i <= moves@.len(),
                moves@ == fen_legal_moves(self@),
                forall|j: int| 0 <= j < moves@.len() ==> uci_codes_in_range(#[trigger] moves@[j]),
                from_index == from.index_of(),
                to_index == to.index_of(),
                legal_choice(fen_legal_moves(self@), from, to, None) == legal_choice(
                    moves@.skip(i as int),
                    from,
                    to,
                    fallback,
                ),
            decreases moves.len() - i,
        {
            let (f, t, p) = moves[i];
            proof {
                assert(moves@.skip(i as int).drop_first() == moves@.skip(i + 1));
            }
            if f == Some(from_index) && t == Some(to_index) {
                let m = ChessMove { from, to, promotion: promotion_from_code(p) };
                if p == 5 {
                    return Some(m);
                }
                fallback = Some(m);
            }
            i = i + 1;
        }
        fallback
    }

    /// Plays a legal move, which hands the turn to the other side; an illegal
    /// one leaves the position as it is.
    pub fn apply_move(&mut self, chess_move: ChessMove) -> (r: Result<(), MoveError>)
        ensures
            match play_in(old(self)@, chess_move) {
                Ok(next) => r is Ok && final(self)@ == next,
                Err(message) => r matches Err(e) && e@ == message && final(self)@ == old(self)@,
            },
            r is Ok ==> side_to_move_in(final(self)@) != side_to_move_in(old(self)@),
    {
        proof {
            use_type_invariant(&*self);
        }
        let (from, to, promotion) = chess_move.codes();
        match play_on(self.fen.as_str(), from, to, promotion) {
            Some(Ok(next)) => match setup_from_fen(next.as_str()) {
                Ok(_) => {
                    self.fen = next;
                    Ok(())
                },
                Err((syntax, detail)) => Err(MoveError(Position::problem(syntax, detail))),
            },
            Some(Err(detail)) => Err(MoveError(joined("illegal move: ", detail.as_str()))),
            None => Err(MoveError(String::new())),
        }
    }

    /// The standard algebraic notation of a legal move.
    pub fn algebraic(&self, chess_move: ChessMove) -> (r: Result<String, MoveError>)
        ensures
            result_view(r) == algebraic_in(self@, chess_move),
    {
        proof {
            use_type_invariant(self);
        }
        let (from, to, promotion) = chess_move.codes();
        match san_on(self.fen.as_str(), from, to, promotion) {
            Some(Ok(san)) => Ok(san),
            Some(Err(detail)) => Err(MoveError(joined("illegal move: ", detail.as_str()))),
            None => Err(MoveError(String::new())),
        }
    }

    /// A copy of the position.
    pub fn copy(&self) -> (r: Position)
        ensures
            r@ == self@,
    {
        proof {
            use_type_invariant(self);
        }
        Position { fen: self.fen.clone() }
    }
}

impl Clone for Position {
    fn clone(&self) -> (r: Position)
        ensures
            r@ == self@,
    {
        self.copy()
    }
}

} // verus!
