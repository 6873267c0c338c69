use gnome_chess_puzzles::move_list::{move_color, opposite, row_for_ply, MoveList};
use gnome_chess_puzzles::puzzle::{ChessMove, Color, NotatedMove};

fn notated(uci: &str, color: Color, algebraic: &str, ply: usize) -> NotatedMove {
    NotatedMove {
        chess_move: ChessMove::from_uci(uci).unwrap(),
        color,
        algebraic: algebraic.to_owned(),
        ply,
    }
}

#[test]
fn white_setup_moves_share_rows_with_following_black_moves() {
    assert_eq!(row_for_ply(0, Color::White), 0);
    assert_eq!(row_for_ply(1, Color::White), 0);
    assert_eq!(row_for_ply(2, Color::White), 1);
}

#[test]
fn black_setup_move_gets_its_own_first_row() {
    assert_eq!(row_for_ply(0, Color::Black), 0);
    assert_eq!(row_for_ply(1, Color::Black), 1);
    assert_eq!(row_for_ply(2, Color::Black), 1);
}

#[test]
fn sides_alternate_from_the_setup_move() {
    assert_eq!(opposite(Color::White), Color::Black);
    assert_eq!(move_color(0, Color::Black), Color::Black);
    assert_eq!(move_color(1, Color::Black), Color::White);
    assert_eq!(move_color(4, Color::White), Color::White);
}

#[test]
fn a_black_setup_move_opens_with_an_ellipsis() {
    let list = MoveList::new(Color::White, 4);
    assert_eq!(list.rows(), 3);
    assert_eq!(list.move_number(0), "1.");
    assert_eq!(list.white_move(0), "...");
    assert_eq!(list.black_move(0), "");

    let white_setup = MoveList::new(Color::Black, 4);
    assert_eq!(white_setup.rows(), 2);
    assert_eq!(white_setup.move_number(0), "");
}

#[test]
fn moves_fill_their_cells_and_an_incorrect_one_can_be_cleared() {
    let mut list = MoveList::new(Color::White, 4);
    list.show_move(&notated("e7e5", Color::Black, "e5", 0));
    assert_eq!(list.black_move(0), "e5");
    list.show_incorrect_move(&notated("b1c3", Color::White, "Nc3", 1));
    assert_eq!(list.white_move(1), "Nc3");
    assert_eq!(list.move_number(1), "2.");
    assert_eq!(list.incorrect_ply(), Some(1));
    list.clear_incorrect_move();
    assert_eq!(list.white_move(1), "");
    assert_eq!(list.move_number(1), "");
    assert_eq!(list.incorrect_ply(), None);
    list.show_move(&notated("g1f3", Color::White, "Nf3", 1));
    assert_eq!(list.white_move(1), "Nf3");
    assert_eq!(list.move_number(1), "2.");
    list.clear_incorrect_move();
    assert_eq!(list.white_move(1), "Nf3");
}

#[test]
fn replaying_the_incorrect_ply_correctly_forgets_the_mistake() {
    let mut list = MoveList::new(Color::White, 4);
    list.show_incorrect_move(&notated("b1c3", Color::White, "Nc3", 1));
    list.show_move(&notated("g1f3", Color::White, "Nf3", 1));
    assert_eq!(list.incorrect_ply(), None);
}
