//! The board as the player sees and uses it: which way round it is shown,
//! which squares are highlighted, and what a click on a square does.
use vstd::prelude::*;

use crate::puzzle::model::{
    fen_legal_moves, legal_choice, piece_in, play_in, side_to_move_in, ChessMove, Color, Position,
    Square,
};

verus! {

/// The display column and row (row 0 at the top) of the square with file
/// `file` and rank `rank`, seen by `user_color`: white sees rank one at the
/// bottom, black sees rank eight at the bottom.
pub open spec fn display_of(file: int, rank: int, user_color: Color) -> (int, int) {
    match user_color {
        Color::White => (file, 7 - rank),
        Color::Black => (7 - file, rank),
    }
}

/// The display column and row of a square, seen by `user_color`. Only the
/// coordinate that is mirrored must lie on the board: the rank for white,
/// the file for black.
pub fn display_coordinates(file: usize, rank: usize, user_color: Color) -> (r: (usize, usize))
    requires
        match user_color {
            Color::White => rank < 8,
            Color::Black => file < 8,
        },
    ensures
        (r.0 as int, r.1 as int) == display_of(file as int, rank as int, user_color),
        file < 8 && rank < 8 ==> r.0 < 8 && r.1 < 8,
{
    match user_color {
        Color::White => (file, 7 - rank),
        Color::Black => (7 - file, rank),
    }
}

/// Seen from either side, turning display coordinates back gives the square.
pub proof fn law_display_is_its_own_inverse(file: int, rank: int, user_color: Color)
    ensures
        display_of(display_of(file, rank, user_color).0, display_of(file, rank, user_color).1, user_color) == (file, rank),
{
}

/// The squares highlighted on the board: the last move's origin and
/// destination, and the square the player selected.
#[derive(Clone, Copy, Debug, PartialEq, Eq, Structural)]
pub struct Highlights {
    pub origin: Option<Square>,
    pub destination: Option<Square>,
    pub selection: Option<Square>,
}

impl Default for Highlights {
    fn default() -> (r: Highlights)
        ensures
            r == (Highlights { origin: None, destination: None, selection: None }),
    {
        Highlights { origin: None, destination: None, selection: None }
    }
}

/// Whether `square`, if any, is shown at display column `file` and row `row`.
pub open spec fn shown_at(square: Option<Square>, file: int, row: int, perspective: Color) -> bool {
    square matches Some(s) && display_of(s.file_of(), s.rank_of(), perspective) == (file, row)
}

fn is_shown_at(square: Option<Square>, file: usize, row: usize, perspective: Color) -> (r: bool)
    ensures
        r == shown_at(square, file as int, row as int, perspective),
{
    match square {
        None => false,
        Some(s) => {
            let (f, r) = display_coordinates(s.file(), s.rank(), perspective);
            f == file && r == row
        },
    }
}

impl Highlights {
    /// Selects the square a move starts from; the last move stays shown.
    pub fn select_origin(&mut self, square: Square)
        ensures
            *final(self) == (Highlights { selection: Some(square), ..*old(self) }),
    {
        self.selection = Some(square);
    }

    /// Shows a move that was played; the selection goes.
    pub fn show_move(&mut self, from: Square, to: Square)
        ensures
            *final(self) == (Highlights { origin: Some(from), destination: Some(to), selection: None }),
    {
        self.origin = Some(from);
        self.destination = Some(to);
        self.selection = None;
    }

    /// Removes every highlight.
    pub fn clear(&mut self)
        ensures
            *final(self) == (Highlights { origin: None, destination: None, selection: None }),
    {
        self.origin = None;
        self.destination = None;
        self.selection = None;
    }

    /// Whether a highlighted square is shown at display column `file` and row `row`.
    pub open spec fn highlights_at(self, file: int, row: int, perspective: Color) -> bool {
        ||| shown_at(self.origin, file, row, perspective)
        ||| shown_at(self.destination, file, row, perspective)
        ||| shown_at(self.selection, file, row, perspective)
    }

    /// Whether a highlighted square is shown at display column `file` and row `row`.
    pub fn contains_display(&self, file: usize, row: usize, perspective: Color) -> (r: bool)
        ensures
            r == self.highlights_at(file as int, row as int, perspective),
    {
        is_shown_at(self.origin, file, row, perspective) || is_shown_at(
            self.destination,
            file,
            row,
            perspective,
        ) || is_shown_at(self.selection, file, row, perspective)
    }
}

/// How a square of the board is painted.
#[derive(Clone, Copy, Debug, PartialEq, Eq, Structural)]
pub enum SquareShade {
    Highlighted,
    Light,
    Dark,
}

/// The paint of the square at display column `file` and row `row`: the
/// highlight where a highlighted square is shown, else light and dark in a
/// checkered pattern with the top-left square light.
pub open spec fn shade_of(highlights: Highlights, file: int, row: int, perspective: Color) -> SquareShade {
    if highlights.highlights_at(file, row, perspective) {
        SquareShade::Highlighted
    } else if (row + file) % 2 == 0 {
        SquareShade::Light
    } else {
        SquareShade::Dark
    }
}

/// The paint of the square at display column `file` and row `row`.
pub fn square_shade(highlights: &Highlights, file: usize, row: usize, perspective: Color) -> (r:
    SquareShade)
    ensures
        r == shade_of(*highlights, file as int, row as int, perspective),
{
    if highlights.contains_display(file, row, perspective) {
        SquareShade::Highlighted
    } else if row % 2 == file % 2 {
        SquareShade::Light
    } else {
        SquareShade::Dark
    }
}

/// What a click on a square asks for.
#[derive(Clone, Copy, Debug, PartialEq, Eq, Structural)]
pub enum UserAction {
    Select(Square),
    Move(ChessMove),
    Ignore,
}

/// What a click on `clicked` asks for, in the position of `fen`, from the
/// player of `user_color` with `selected` selected: nothing while the
/// opponent is to move; selecting one of the player's own pieces; else the
/// legal move from the selection to the clicked square, if there is one.
pub open spec fn user_action_of(
    fen: Seq<char>,
    user_color: Color,
    selected: Option<Square>,
    clicked: Square,
) -> UserAction {
    if side_to_move_in(fen) != user_color {
        UserAction::Ignore
    } else if piece_in(fen, clicked.index_of() as u8) matches Some(piece) && piece.color
        == user_color {
        UserAction::Select(clicked)
    } else {
        match selected {
            None => UserAction::Ignore,
            Some(from) => match legal_choice(fen_legal_moves(fen), from, clicked, None) {
                Some(m) => UserAction::Move(m),
                None => UserAction::Ignore,
            },
        }
    }
}

/// What a click on a square asks for.
pub fn user_action(position: &Position, user_color: Color, selected: Option<Square>, clicked: Square) -> (r:
    UserAction)
    ensures
        r == user_action_of(position@, user_color, selected, clicked),
{
    if position.side_to_move() != user_color {
        return UserAction::Ignore;
    }
    match position.piece_at(clicked.file(), clicked.rank()) {
        Some(piece) => {
            if piece.color == user_color {
                return UserAction::Select(clicked);
            }
        },
        None => {},
    }
    match selected {
        None => UserAction::Ignore,
        Some(from) => match position.legal_move(from, clicked) {
            Some(m) => UserAction::Move(m),
            None => UserAction::Ignore,
        },
    }
}

/// A click only selects a square that holds one of the player's pieces, and
/// only asks for a move from the selected square that is legal.
pub proof fn law_clicks_ask_only_for_legal_moves(
    fen: Seq<char>,
    user_color: Color,
    selected: Option<Square>,
    clicked: Square,
)
    ensures
        user_action_of(fen, user_color, selected, clicked) matches UserAction::Select(s) ==> (s
            == clicked && side_to_move_in(fen) == user_color && (piece_in(fen, clicked.index_of() as u8) matches Some(p) && p.color == user_color)),
        user_action_of(fen, user_color, selected, clicked) matches UserAction::Move(m) ==> (side_to_move_in(fen) == user_color && selected == Some(m.from) && m.to == clicked
            && legal_choice(fen_legal_moves(fen), m.from, clicked, None) == Some(m)),
{
    if let Some(from) = selected {
        lemma_legal_choice_ends(fen_legal_moves(fen), from, clicked, None);
    }
}

/// The move that `legal_choice` picks goes between the given squares.
pub proof fn lemma_legal_choice_ends(
    moves: Seq<(Option<u8>, Option<u8>, u8)>,
    from: Square,
    to: Square,
    fallback: Option<ChessMove>,
)
    requires
        fallback matches Some(m) ==> m.from == from && m.to == to,
    ensures
        legal_choice(moves, from, to, fallback) matches Some(m) ==> m.from == from && m.to == to,
    decreases moves.len(),
{
    if moves.len() > 0 {
        let (f, t, p) = moves[0];
        if f == Some(from.index_of() as u8) && t == Some(to.index_of() as u8) {
            lemma_legal_choice_ends(
                moves.drop_first(),
                from,
                to,
                Some(ChessMove { from, to, promotion: crate::puzzle::model::promotion_of_code(p) }),
            );
        } else {
            lemma_legal_choice_ends(moves.drop_first(), from, to, fallback);
        }
    }
}

/// Whether shakmaty's list of legal moves holds a move from `from` to `to`.
pub open spec fn has_move_between(
    moves: Seq<(Option<u8>, Option<u8>, u8)>,
    from: Square,
    to: Square,
) -> bool {
    exists|i: int|
        0 <= i < moves.len() && (#[trigger] moves[i]).0 == Some(from.index_of() as u8) && moves[i].1
            == Some(to.index_of() as u8)
}

/// Whether move `m` is one of shakmaty's list of legal moves.
pub open spec fn is_listed(moves: Seq<(Option<u8>, Option<u8>, u8)>, m: ChessMove) -> bool {
    exists|i: int|
        0 <= i < moves.len() && (#[trigger] moves[i]).0 == Some(m.from.index_of() as u8)
            && moves[i].1 == Some(m.to.index_of() as u8) && m.promotion
            == crate::puzzle::model::promotion_of_code(moves[i].2)
}

proof fn lemma_legal_choice_keeps_a_fallback(
    moves: Seq<(Option<u8>, Option<u8>, u8)>,
    from: Square,
    to: Square,
    fallback: Option<ChessMove>,
)
    requires
        fallback is Some,
    ensures
        legal_choice(moves, from, to, fallback) is Some,
    decreases moves.len(),
{
    if moves.len() > 0 {
        let (f, t, p) = moves[0];
        if f == Some(from.index_of() as u8) && t == Some(to.index_of() as u8) {
            lemma_legal_choice_keeps_a_fallback(
                moves.drop_first(),
                from,
                to,
                Some(ChessMove { from, to, promotion: crate::puzzle::model::promotion_of_code(p) }),
            );
        } else {
            lemma_legal_choice_keeps_a_fallback(moves.drop_first(), from, to, fallback);
        }
    }
}

proof fn lemma_legal_choice_finds(
    moves: Seq<(Option<u8>, Option<u8>, u8)>,
    from: Square,
    to: Square,
    fallback: Option<ChessMove>,
)
    requires
        has_move_between(moves, from, to),
    ensures
        legal_choice(moves, from, to, fallback) is Some,
    decreases moves.len(),
{
    let (f, t, p) = moves[0];
    if f == Some(from.index_of() as u8) && t == Some(to.index_of() as u8) {
        lemma_legal_choice_keeps_a_fallback(
            moves.drop_first(),
            from,
            to,
            Some(ChessMove { from, to, promotion: crate::puzzle::model::promotion_of_code(p) }),
        );
    } else {
        let i = choose|i: int|
            0 <= i < moves.len() && (#[trigger] moves[i]).0 == Some(from.index_of() as u8)
                && moves[i].1 == Some(to.index_of() as u8);
        assert(moves.drop_first()[i - 1] == moves[i]);
        lemma_legal_choice_finds(moves.drop_first(), from, to, fallback);
    }
}

proof fn lemma_legal_choice_listed(
    whole: Seq<(Option<u8>, Option<u8>, u8)>,
    start: int,
    from: Square,
    to: Square,
    fallback: Option<ChessMove>,
)
    requires
        0 <= start <= whole.len(),
        fallback matches Some(m) ==> is_listed(whole, m),
    ensures
        legal_choice(whole.skip(start), from, to, fallback) matches Some(m) ==> is_listed(whole, m),
    decreases whole.len() - start,
{
    let moves = whole.skip(start);
    if moves.len() > 0 {
        let (f, t, p) = moves[0];
        assert(moves[0] == whole[start]);
        assert(moves.drop_first() == whole.skip(start + 1));
        if f == Some(from.index_of() as u8) && t == Some(to.index_of() as u8) {
            let m = ChessMove { from, to, promotion: crate::puzzle::model::promotion_of_code(p) };
            assert(is_listed(whole, m));
            lemma_legal_choice_listed(whole, start + 1, from, to, Some(m));
        } else {
            lemma_legal_choice_listed(whole, start + 1, from, to, fallback);
        }
    }
}

proof fn lemma_legal_choice_prefers_a_queen(
    moves: Seq<(Option<u8>, Option<u8>, u8)>,
    from: Square,
    to: Square,
    fallback: Option<ChessMove>,
)
    requires
        exists|i: int|
            0 <= i < moves.len() && (#[trigger] moves[i]).0 == Some(from.index_of() as u8)
                && moves[i].1 == Some(to.index_of() as u8) && moves[i].2 == 5,
    ensures
        legal_choice(moves, from, to, fallback) == Some(
            ChessMove { from, to, promotion: Some(crate::puzzle::model::Role::Queen) },
        ),
    decreases moves.len(),
{
    let (f, t, p) = moves[0];
    if f == Some(from.index_of() as u8) && t == Some(to.index_of() as u8) && p == 5 {
    } else {
        let i = choose|i: int|
            0 <= i < moves.len() && (#[trigger] moves[i]).0 == Some(from.index_of() as u8)
                && moves[i].1 == Some(to.index_of() as u8) && moves[i].2 == 5;
        assert(moves.drop_first()[i - 1] == moves[i]);
        if f == Some(from.index_of() as u8) && t == Some(to.index_of() as u8) {
            lemma_legal_choice_prefers_a_queen(
                moves.drop_first(),
                from,
                to,
                Some(ChessMove { from, to, promotion: crate::puzzle::model::promotion_of_code(p) }),
            );
        } else {
            lemma_legal_choice_prefers_a_queen(moves.drop_first(), from, to, fallback);
        }
    }
}

/// A click on one of the player's own pieces, on the player's turn, selects
/// that square, whatever was selected before.
pub proof fn law_a_click_on_an_own_piece_selects_it(
    fen: Seq<char>,
    user_color: Color,
    selected: Option<Square>,
    clicked: Square,
)
    requires
        side_to_move_in(fen) == user_color,
        piece_in(fen, clicked.index_of() as u8) matches Some(p) && p.color == user_color,
    ensures
        user_action_of(fen, user_color, selected, clicked) == UserAction::Select(clicked),
{
}

/// While the opponent is to move, every click is ignored.
pub proof fn law_clicks_wait_for_the_players_turn(
    fen: Seq<char>,
    user_color: Color,
    selected: Option<Square>,
    clicked: Square,
)
    requires
        side_to_move_in(fen) != user_color,
    ensures
        user_action_of(fen, user_color, selected, clicked) == UserAction::Ignore,
{
}

/// A pawn that reaches the last rank by a click promotes to a queen whenever
/// shakmaty lists that promotion.
pub proof fn law_a_click_promotes_to_a_queen(
    fen: Seq<char>,
    user_color: Color,
    from: Square,
    clicked: Square,
)
    requires
        side_to_move_in(fen) == user_color,
        !(piece_in(fen, clicked.index_of() as u8) matches Some(p) && p.color == user_color),
        exists|i: int|
            0 <= i < fen_legal_moves(fen).len() && (#[trigger] fen_legal_moves(fen)[i]).0 == Some(
                from.index_of() as u8,
            ) && fen_legal_moves(fen)[i].1 == Some(clicked.index_of() as u8)
                && fen_legal_moves(fen)[i].2 == 5,
    ensures
        user_action_of(fen, user_color, Some(from), clicked) == UserAction::Move(
            ChessMove { from, to: clicked, promotion: Some(crate::puzzle::model::Role::Queen) },
        ),
{
    lemma_legal_choice_prefers_a_queen(fen_legal_moves(fen), from, clicked, None);
}

/// A click completes a move whenever one can be made: when it is the
/// player's turn, a square is selected, the clicked square holds none of the
/// player's pieces, and shakmaty lists a legal move from the selected square
/// to the clicked one, the click asks for a move, from the selected square to
/// the clicked one, that shakmaty lists. A capture is such a move.
pub proof fn law_a_click_plays_a_legal_move(
    fen: Seq<char>,
    user_color: Color,
    from: Square,
    clicked: Square,
)
    requires
        side_to_move_in(fen) == user_color,
        !(piece_in(fen, clicked.index_of() as u8) matches Some(p) && p.color == user_color),
        has_move_between(fen_legal_moves(fen), from, clicked),
    ensures
        user_action_of(fen, user_color, Some(from), clicked) is Move,
        user_action_of(fen, user_color, Some(from), clicked)->Move_0.from == from,
        user_action_of(fen, user_color, Some(from), clicked)->Move_0.to == clicked,
        is_listed(fen_legal_moves(fen), user_action_of(fen, user_color, Some(from), clicked)->Move_0),
{
    let moves = fen_legal_moves(fen);
    lemma_legal_choice_finds(moves, from, clicked, None);
    lemma_legal_choice_ends(moves, from, clicked, None);
    assert(moves.skip(0) == moves);
    lemma_legal_choice_listed(moves, 0, from, clicked, None);
}

/// The board: the position shown, the side the player sees it from, and the
/// highlights.
pub struct Board {
    position: Option<Position>,
    perspective: Option<Color>,
    highlights: Highlights,
}

/// A board as a value.
pub struct BoardView {
    pub position: Option<Seq<char>>,
    pub perspective: Option<Color>,
    pub highlights: Highlights,
}

impl View for Board {
    type V = BoardView;

    closed spec fn view(&self) -> BoardView {
        BoardView {
            position: match self.position {
                Some(p) => Some(p@),
                None => None,
            },
            perspective: self.perspective,
            highlights: self.highlights,
        }
    }
}

/// The board after a click on `square`, and the move played, if any: a
/// selection is highlighted; a legal move is played and highlighted.
pub open spec fn click(b: BoardView, square: Square) -> (BoardView, Option<ChessMove>) {
    match (b.perspective, b.position) {
        (Some(perspective), Some(fen)) => match user_action_of(
            fen,
            perspective,
            b.highlights.selection,
            square,
        ) {
            UserAction::Select(s) => (
                BoardView { highlights: Highlights { selection: Some(s), ..b.highlights }, ..b },
                None,
            ),
            UserAction::Move(m) => match play_in(fen, m) {
                Ok(next) => (
                    BoardView {
                        position: Some(next),
                        highlights: Highlights {
                            origin: Some(m.from),
                            destination: Some(m.to),
                            selection: None,
                        },
                        ..b
                    },
                    Some(m),
                ),
                Err(_) => (b, None),
            },
            UserAction::Ignore => (b, None),
        },
        _ => (b, None),
    }
}

impl Board {
    /// A board showing `position` from the side of `perspective`.
    pub fn new(position: Position, perspective: Color) -> (r: Board)
        ensures
            r@ == (BoardView {
                position: Some(position@),
                perspective: Some(perspective),
                highlights: Highlights { origin: None, destination: None, selection: None },
            }),
    {
        Board { position: Some(position), perspective: Some(perspective), highlights: Highlights::default() }
    }

    /// Shows another position; the highlights stay.
    pub fn set_position(&mut self, position: Position)
        ensures
            final(self)@ == (BoardView { position: Some(position@), ..old(self)@ }),
    {
        self.position = Some(position);
    }

    /// Highlights the square a move starts from.
    pub fn highlight_origin(&mut self, square: Square)
        ensures
            final(self)@ == (BoardView {
                highlights: Highlights { selection: Some(square), ..old(self)@.highlights },
                ..old(self)@
            }),
    {
        self.highlights.select_origin(square);
    }

    /// Highlights a move that was played.
    pub fn highlight_move(&mut self, chess_move: ChessMove)
        ensures
            final(self)@ == (BoardView {
                highlights: Highlights {
                    origin: Some(chess_move.from),
                    destination: Some(chess_move.to),
                    selection: None,
                },
                ..old(self)@
            }),
    {
        self.highlights.show_move(chess_move.from, chess_move.to);
    }

    /// Removes every highlight.
    pub fn clear_highlights(&mut self)
        ensures
            final(self)@ == (BoardView {
                highlights: Highlights { origin: None, destination: None, selection: None },
                ..old(self)@
            }),
    {
        self.highlights.clear();
    }

    /// The position shown.
    pub fn position(&self) -> (r: Option<&Position>)
        ensures
            r matches Some(p) ==> self@.position == Some(p@),
            r is None <==> self@.position is None,
    {
        match &self.position {
            Some(p) => Some(p),
            None => None,
        }
    }

    /// The side the board is seen from.
    pub fn perspective(&self) -> (r: Option<Color>)
        ensures
            r == self@.perspective,
    {
        self.perspective
    }

    /// The highlights.
    pub fn highlights(&self) -> (r: Highlights)
        ensures
            r == self@.highlights,
    {
        self.highlights
    }

    /// Handles a click on `square`: selects one of the player's pieces, or
    /// plays and highlights the legal move from the selection; gives the
    /// move played.
    pub fn click_square(&mut self, square: Square) -> (r: Option<ChessMove>)
        ensures
            (final(self)@, r) == click(old(self)@, square),
    {
        let perspective = match self.perspective {
            Some(perspective) => perspective,
            None => {
                return None;
            },
        };
        let action = match &self.position {
            Some(position) => user_action(position, perspective, self.highlights.selection, square),
            None => {
                return None;
            },
        };
        match action {
            UserAction::Select(s) => {
                self.highlight_origin(s);
                None
            },
            UserAction::Move(m) => {
                let moved = match &mut self.position {
                    Some(position) => position.apply_move(m).is_ok(),
                    None => false,
                };
                if moved {
                    self.highlight_move(m);
                    Some(m)
                } else {
                    None
                }
            },
            UserAction::Ignore => None,
        }
    }
}

} // verus!
