//! The move list beside the board: which row and column each move of the
//! puzzle takes, and the text each cell shows.
use vstd::prelude::*;
use vstd::string::*;

use crate::puzzle::model::Color;
use crate::puzzle::session::NotatedMove;
use crate::text::{decimal, push_decimal};

verus! {

/// The other side.
pub open spec fn opposite_of(color: Color) -> Color {
    match color {
        Color::White => Color::Black,
        Color::Black => Color::White,
    }
}

/// The other side.
pub fn opposite(color: Color) -> (r: Color)
    ensures
        r == opposite_of(color),
{
    match color {
        Color::White => Color::Black,
        Color::Black => Color::White,
    }
}

/// The side that plays ply `ply` when the setup move (ply 0) is played by
/// `setup_color`.
pub open spec fn move_color_of(ply: nat, setup_color: Color) -> Color {
    if ply % 2 == 0 {
        setup_color
    } else {
        opposite_of(setup_color)
    }
}

/// The side that plays ply `ply`.
pub fn move_color(ply: usize, setup_color: Color) -> (r: Color)
    ensures
        r == move_color_of(ply as nat, setup_color),
{
    if ply % 2 == 0 {
        setup_color
    } else {
        opposite(setup_color)
    }
}

/// The row of the move list that shows ply `ply`: a white setup move shares
/// its row with the black reply, a black setup move has a row of its own.
pub open spec fn row_of(ply: nat, setup_color: Color) -> nat {
    match setup_color {
        Color::White => ply / 2,
        Color::Black => (ply + 1) / 2,
    }
}

/// The row of the move list that shows ply `ply`.
pub fn row_for_ply(ply: usize, setup_color: Color) -> (r: usize)
    requires
        setup_color == Color::Black ==> ply < usize::MAX,
    ensures
        r == row_of(ply as nat, setup_color),
{
    match setup_color {
        Color::White => ply / 2,
        Color::Black => (ply + 1) / 2,
    }
}

/// Two different plies never share a cell: plies in the same row are played
/// by different sides.
pub proof fn law_one_move_per_cell(first: nat, second: nat, setup_color: Color)
    requires
        first != second,
        row_of(first, setup_color) == row_of(second, setup_color),
    ensures
        move_color_of(first, setup_color) != move_color_of(second, setup_color),
{
}

/// Later plies never stand in earlier rows, and each row holds at most two plies.
pub proof fn law_rows_follow_the_plies(first: nat, second: nat, setup_color: Color)
    requires
        first <= second,
    ensures
        row_of(first, setup_color) <= row_of(second, setup_color),
        row_of(second, setup_color) <= row_of(first, setup_color) + (second - first + 1) / 2,
{
}

/// The text of the move list: the move number and the white and black move
/// of each row, and the ply of an incorrect move on show.
pub struct MoveList {
    move_numbers: Vec<String>,
    white_moves: Vec<String>,
    black_moves: Vec<String>,
    setup_color: Color,
    incorrect_ply: Option<usize>,
}

/// A move list as a value.
pub struct MoveListView {
    pub move_numbers: Seq<Seq<char>>,
    pub white_moves: Seq<Seq<char>>,
    pub black_moves: Seq<Seq<char>>,
    pub setup_color: Color,
    pub incorrect_ply: Option<nat>,
}

/// The texts of a list of strings.
pub open spec fn texts(v: Seq<String>) -> Seq<Seq<char>> {
    v.map_values(|s: String| s@)
}

impl MoveListView {
    /// The number of rows.
    pub open spec fn rows(self) -> nat {
        self.move_numbers.len()
    }

    /// All three columns have a cell in each row; an incorrect move on show
    /// lies within the rows.
    pub open spec fn wf(self) -> bool {
        &&& self.white_moves.len() == self.rows()
        &&& self.black_moves.len() == self.rows()
        &&& (self.incorrect_ply matches Some(ply) ==> ply < usize::MAX && row_of(
            ply,
            self.setup_color,
        ) < self.rows())
    }

    /// Whether the list has a row for ply `ply`.
    pub open spec fn shows(self, ply: nat) -> bool {
        ply < usize::MAX && row_of(ply, self.setup_color) < self.rows()
    }

    /// The list with move `played` written in its cell: the algebraic
    /// notation in the column of the side that played it and, for a white
    /// move, the move number; it no longer counts as incorrect.
    pub open spec fn with_move(self, played: crate::puzzle::session::NotatedMoveView) -> MoveListView {
        let row = row_of(played.ply, self.setup_color) as int;
        let numbered = if played.color == Color::White {
            self.move_numbers.update(row, decimal((row + 1) as nat) + "."@)
        } else {
            self.move_numbers
        };
        MoveListView {
            move_numbers: numbered,
            white_moves: if played.color == Color::White {
                self.white_moves.update(row, played.algebraic)
            } else {
                self.white_moves
            },
            black_moves: if played.color == Color::Black {
                self.black_moves.update(row, played.algebraic)
            } else {
                self.black_moves
            },
            incorrect_ply: if self.incorrect_ply == Some(played.ply) {
                None
            } else {
                self.incorrect_ply
            },
            ..self
        }
    }

    /// The list with the cell of the incorrect move on show emptied, and
    /// its move number too for a white move.
    pub open spec fn cleared(self) -> MoveListView {
        match self.incorrect_ply {
            None => self,
            Some(ply) => {
                let row = row_of(ply, self.setup_color) as int;
                let white = move_color_of(ply, self.setup_color) == Color::White;
                MoveListView {
                    move_numbers: if white {
                        self.move_numbers.update(row, Seq::<char>::empty())
                    } else {
                        self.move_numbers
                    },
                    white_moves: if white {
                        self.white_moves.update(row, Seq::<char>::empty())
                    } else {
                        self.white_moves
                    },
                    black_moves: if white {
                        self.black_moves
                    } else {
                        self.black_moves.update(row, Seq::<char>::empty())
                    },
                    incorrect_ply: None,
                    ..self
                }
            },
        }
    }
}

/// Clearing an incorrect move empties exactly the cell of the side that
/// played it, in the row of its ply, with the row's move number for a white
/// move; every other cell, the other column of that row included, stays as
/// it was, and no incorrect move is left on show.
pub proof fn law_clearing_empties_only_the_incorrect_cell(l: MoveListView)
    requires
        l.wf(),
        l.incorrect_ply is Some,
    ensures
        ({
            let ply = l.incorrect_ply->0;
            let row = row_of(ply, l.setup_color) as int;
            let c = l.cleared();
            &&& c.wf()
            &&& c.incorrect_ply is None
            &&& c.setup_color == l.setup_color
            &&& c.rows() == l.rows()
            &&& move_color_of(ply, l.setup_color) == Color::White ==> {
                &&& c.white_moves[row] == Seq::<char>::empty()
                &&& c.move_numbers[row] == Seq::<char>::empty()
                &&& c.black_moves == l.black_moves
            }
            &&& move_color_of(ply, l.setup_color) == Color::Black ==> {
                &&& c.black_moves[row] == Seq::<char>::empty()
                &&& c.white_moves == l.white_moves
                &&& c.move_numbers == l.move_numbers
            }
            &&& forall|i: int|
                0 <= i < l.rows() && i != row ==> c.white_moves[i] == l.white_moves[i]
                    && c.black_moves[i] == l.black_moves[i] && #[trigger] c.move_numbers[i]
                    == l.move_numbers[i]
        }),
{
}

/// With nothing incorrect on show, clearing changes nothing.
pub proof fn law_clearing_without_an_incorrect_move_changes_nothing(l: MoveListView)
    requires
        l.incorrect_ply is None,
    ensures
        l.cleared() == l,
{
}

/// Showing a move writes its notation in the column of the side that played
/// it, in the row of its ply, with the row's number for a white move; every
/// other cell stays as it was.
pub proof fn law_a_move_is_written_in_its_own_cell(
    l: MoveListView,
    played: crate::puzzle::session::NotatedMoveView,
)
    requires
        l.wf(),
        l.shows(played.ply),
    ensures
        ({
            let row = row_of(played.ply, l.setup_color) as int;
            let w = l.with_move(played);
            &&& w.wf()
            &&& w.rows() == l.rows()
            &&& w.setup_color == l.setup_color
            &&& played.color == Color::White ==> {
                &&& w.white_moves[row] == played.algebraic
                &&& w.move_numbers[row] == decimal((row + 1) as nat) + "."@
                &&& w.black_moves == l.black_moves
            }
            &&& played.color == Color::Black ==> {
                &&& w.black_moves[row] == played.algebraic
                &&& w.white_moves == l.white_moves
                &&& w.move_numbers == l.move_numbers
            }
            &&& forall|i: int|
                0 <= i < l.rows() && i != row ==> w.white_moves[i] == l.white_moves[i]
                    && w.black_moves[i] == l.black_moves[i] && #[trigger] w.move_numbers[i]
                    == l.move_numbers[i]
        }),
{
}

/// Showing an incorrect move in an empty cell and then clearing it gives the
/// list back as it was, when the move is written in the column of the side
/// that plays its ply.
pub proof fn law_clearing_undoes_an_incorrect_move(
    l: MoveListView,
    played: crate::puzzle::session::NotatedMoveView,
)
    requires
        l.wf(),
        l.incorrect_ply is None,
        l.shows(played.ply),
        played.color == move_color_of(played.ply, l.setup_color),
        played.color == Color::White ==> l.white_moves[row_of(played.ply, l.setup_color) as int]
            == Seq::<char>::empty() && l.move_numbers[row_of(played.ply, l.setup_color) as int]
            == Seq::<char>::empty(),
        played.color == Color::Black ==> l.black_moves[row_of(played.ply, l.setup_color) as int]
            == Seq::<char>::empty(),
    ensures
        (MoveListView { incorrect_ply: Some(played.ply), ..l.with_move(played) }).cleared() == l,
{
    let shown = MoveListView { incorrect_ply: Some(played.ply), ..l.with_move(played) };
    let c = shown.cleared();
    assert(c.white_moves =~= l.white_moves);
    assert(c.black_moves =~= l.black_moves);
    assert(c.move_numbers =~= l.move_numbers);
}

impl View for MoveList {
    type V = MoveListView;

    closed spec fn view(&self) -> MoveListView {
        MoveListView {
            move_numbers: texts(self.move_numbers@),
            white_moves: texts(self.white_moves@),
            black_moves: texts(self.black_moves@),
            setup_color: self.setup_color,
            incorrect_ply: match self.incorrect_ply {
                Some(ply) => Some(ply as nat),
                None => None,
            },
        }
    }
}

impl MoveList {
    /// The empty move list of a puzzle where the player plays `user_color`
    /// and the puzzle has `total_plies` plies; a black setup move shows `1.`
    /// and `...` in the first row.
    pub fn new(user_color: Color, total_plies: usize) -> (r: MoveList)
        requires
            total_plies >= 1,
        ensures
            r@.wf(),
            r@.setup_color == opposite_of(user_color),
            r@.rows() == row_of((total_plies - 1) as nat, opposite_of(user_color)) + 1,
            r@.incorrect_ply is None,
            r@.black_moves == Seq::new(r@.rows(), |i: int| Seq::<char>::empty()),
            r@.move_numbers == Seq::new(r@.rows(), |i: int| if i == 0 && r@.setup_color == Color::Black { "1."@ } else { Seq::<char>::empty() }),
            r@.white_moves == Seq::new(r@.rows(), |i: int| if i == 0 && r@.setup_color == Color::Black { "..."@ } else { Seq::<char>::empty() }),
    {
        let setup_color = opposite(user_color);
        let rows = row_for_ply(total_plies - 1, setup_color) + 1;
        let mut move_numbers: Vec<String> = Vec::new();
        let mut white_moves: Vec<String> = Vec::new();
        let mut black_moves: Vec<String> = Vec::new();
        let mut row: usize = 0;
        while row < rows
            invariant
                row <= rows,
                move_numbers@.len() == row,
                white_moves@.len() == row,
                black_moves@.len() == row,
                forall|i: int| 0 <= i < row ==> (#[trigger] move_numbers@[i])@ == Seq::<char>::empty(),
                forall|i: int| 0 <= i < row ==> (#[trigger] white_moves@[i])@ == Seq::<char>::empty(),
                forall|i: int| 0 <= i < row ==> (#[trigger] black_moves@[i])@ == Seq::<char>::empty(),
            decreases rows - row,
        {
            move_numbers.push(String::new());
            white_moves.push(String::new());
            black_moves.push(String::new());
            row = row + 1;
        }
        if setup_color == Color::Black {
            move_numbers[0] = String::from_str("1.");
            white_moves[0] = String::from_str("...");
        }
        let r = MoveList { move_numbers, white_moves, black_moves, setup_color, incorrect_ply: None };
        assert(r@.black_moves =~= Seq::new(r@.rows(), |i: int| Seq::<char>::empty()));
        assert(r@.move_numbers =~= Seq::new(r@.rows(), |i: int| if i == 0 && r@.setup_color == Color::Black { "1."@ } else { Seq::<char>::empty() }));
        assert(r@.white_moves =~= Seq::new(r@.rows(), |i: int| if i == 0 && r@.setup_color == Color::Black { "..."@ } else { Seq::<char>::empty() }));
        r
    }

    /// The number of rows.
    pub fn rows(&self) -> (r: usize)
        ensures
            r == self@.rows(),
    {
        self.move_numbers.len()
    }

    /// Whether the list has a row for ply `ply`.
    pub fn has_row_for(&self, ply: usize) -> (r: bool)
        ensures
            r == self@.shows(ply as nat),
    {
        ply < usize::MAX && row_for_ply(ply, self.setup_color) < self.move_numbers.len()
    }

    /// The move number shown in row `row`.
    pub fn move_number(&self, row: usize) -> (r: &str)
        requires
            row < self@.rows(),
        ensures
            r@ == self@.move_numbers[row as int],
    {
        self.move_numbers[row].as_str()
    }

    /// The white move shown in row `row`.
    pub fn white_move(&self, row: usize) -> (r: &str)
        requires
            self@.wf(),
            row < self@.rows(),
        ensures
            r@ == self@.white_moves[row as int],
    {
        self.white_moves[row].as_str()
    }

    /// The black move shown in row `row`.
    pub fn black_move(&self, row: usize) -> (r: &str)
        requires
            self@.wf(),
            row < self@.rows(),
        ensures
            r@ == self@.black_moves[row as int],
    {
        self.black_moves[row].as_str()
    }

    /// The ply of the incorrect move on show.
    pub fn incorrect_ply(&self) -> (r: Option<usize>)
        ensures
            r matches Some(ply) ==> self@.incorrect_ply == Some(ply as nat),
            r is None <==> self@.incorrect_ply is None,
    {
        self.incorrect_ply
    }

    /// Writes a played move into its cell.
    pub fn show_move(&mut self, played_move: &NotatedMove)
        requires
            old(self)@.wf(),
            old(self)@.shows(played_move.ply as nat),
        ensures
            final(self)@ == old(self)@.with_move(played_move@),
            final(self)@.wf(),
    {
        let row = row_for_ply(played_move.ply, self.setup_color);
        let ghost before = self@;
        match played_move.color {
            Color::White => {
                self.white_moves[row] = played_move.algebraic.clone();
                let mut number = String::new();
                push_decimal(&mut number, (row + 1) as u128);
                number.append(".");
                self.move_numbers[row] = number;
            },
            Color::Black => {
                self.black_moves[row] = played_move.algebraic.clone();
            },
        }
        if self.incorrect_ply == Some(played_move.ply) {
            self.incorrect_ply = None;
        }
        assert(texts(self.move_numbers@) =~= before.with_move(played_move@).move_numbers);
        assert(texts(self.white_moves@) =~= before.with_move(played_move@).white_moves);
        assert(texts(self.black_moves@) =~= before.with_move(played_move@).black_moves);
    }

    /// Writes an incorrect move into its cell and remembers it for clearing.
    pub fn show_incorrect_move(&mut self, played_move: &NotatedMove)
        requires
            old(self)@.wf(),
            old(self)@.shows(played_move.ply as nat),
        ensures
            final(self)@ == (MoveListView {
                incorrect_ply: Some(played_move.ply as nat),
                ..old(self)@.with_move(played_move@)
            }),
            final(self)@.wf(),
    {
        self.show_move(played_move);
        self.incorrect_ply = Some(played_move.ply);
    }

    /// Empties the cell of the incorrect move on show, if any.
    pub fn clear_incorrect_move(&mut self)
        requires
            old(self)@.wf(),
        ensures
            final(self)@ == old(self)@.cleared(),
            final(self)@.wf(),
    {
        let ghost before = self@;
        let ply = match self.incorrect_ply.take() {
            Some(ply) => ply,
            None => {
                return;
            },
        };
        let row = row_for_ply(ply, self.setup_color);
        if move_color(ply, self.setup_color) == Color::White {
            self.white_moves[row] = String::new();
            self.move_numbers[row] = String::new();
        } else {
            self.black_moves[row] = String::new();
        }
        assert(texts(self.move_numbers@) =~= before.cleared().move_numbers);
        assert(texts(self.white_moves@) =~= before.cleared().white_moves);
        assert(texts(self.black_moves@) =~= before.cleared().black_moves);
    }
}

} // verus!
