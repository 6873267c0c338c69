use gnome_chess_puzzles::puzzle::{ChessMove, Color, Piece, Position, Role, Square};

const START: &str = "rnbqkbnr/pppppppp/8/8/8/8/PPPPPPPP/RNBQKBNR w KQkq - 0 1";

#[test]
fn parses_starting_position() {
    let position =
        Position::from_fen("rnbqkbnr/pppppppp/8/8/8/8/PPPPPPPP/RNBQKBNR w KQkq - 0 1").unwrap();

    assert_eq!(
        position.piece_at(4, 0),
        Some(Piece {
            color: Color::White,
            role: Role::King,
        })
    );
    assert_eq!(
        position.piece_at(4, 7),
        Some(Piece {
            color: Color::Black,
            role: Role::King,
        })
    );
    assert_eq!(position.side_to_move(), Color::White);
}

#[test]
fn rejects_incomplete_rank() {
    assert!(Position::from_fen("7/8/8/8/8/8/8/8 w - - 0 1").is_err());
}

#[test]
fn applies_the_placeholder_setup_move() {
    let mut position =
        Position::from_fen("2kr1b1r/p1p2pp1/2pqb3/7p/3N2n1/2NPB3/PPP2PPP/R2Q1RK1 w - - 2 13")
            .unwrap();
    let setup_move = ChessMove::from_uci("d4e6").unwrap();

    position.apply_move(setup_move).unwrap();

    assert_eq!(position.piece_at(3, 3), None);
    assert_eq!(
        position.piece_at(4, 5),
        Some(Piece {
            color: Color::White,
            role: Role::Knight,
        })
    );
    assert_eq!(position.side_to_move(), Color::Black);
}

#[test]
fn finds_legal_moves_and_rejects_illegal_destinations() {
    let position =
        Position::from_fen("rnbqkbnr/pppppppp/8/8/8/8/PPPPPPPP/RNBQKBNR w KQkq - 0 1").unwrap();
    let legal = ChessMove::from_uci("e2e4").unwrap();
    let illegal = ChessMove::from_uci("e2e5").unwrap();

    assert_eq!(position.legal_move(legal.from, legal.to), Some(legal));
    assert_eq!(position.legal_move(illegal.from, illegal.to), None);
}

#[test]
fn formats_moves_in_standard_algebraic_notation() {
    let position =
        Position::from_fen("rnbqkbnr/pppppppp/8/8/8/8/PPPPPPPP/RNBQKBNR w KQkq - 0 1").unwrap();

    assert_eq!(
        position
            .algebraic(ChessMove::from_uci("g1f3").unwrap())
            .unwrap(),
        "Nf3"
    );
}

#[test]
fn uci_moves_name_their_squares_and_promotion() {
    let m = ChessMove::from_uci("e7e8q").unwrap();
    assert_eq!((m.from.file(), m.from.rank()), (4, 6));
    assert_eq!((m.to.file(), m.to.rank()), (4, 7));
    assert_eq!(m.promotion(), Some(Role::Queen));
    let plain = ChessMove::from_uci("g1f3").unwrap();
    assert_eq!((plain.from.file(), plain.from.rank()), (6, 0));
    assert_eq!(plain.promotion(), None);
}

#[test]
fn move_reading_errors_carry_their_reason() {
    assert_eq!(
        ChessMove::from_uci("e2").unwrap_err().message(),
        "invalid UCI move: invalid uci"
    );
    assert_eq!(
        ChessMove::from_uci("0000").unwrap_err().message(),
        "move must have an origin square"
    );
    assert_eq!(
        ChessMove::from_uci("Q@e4").unwrap_err().message(),
        "move must have an origin square"
    );
}

#[test]
fn fen_errors_tell_syntax_from_illegal_positions() {
    let syntax = Position::from_fen("not a fen").unwrap_err();
    assert!(syntax.message().starts_with("invalid FEN: "));
    let illegal = Position::from_fen("8/8/8/8/8/8/8/8 w - - 0 1").unwrap_err();
    assert!(illegal.message().starts_with("invalid chess position: "));
}

#[test]
fn positions_are_held_as_shakmaty_writes_them() {
    let position = Position::from_fen(START).unwrap();
    assert_eq!(position.fen(), START);
    let mut after = position.clone();
    after.apply_move(ChessMove::from_uci("e2e4").unwrap()).unwrap();
    assert_eq!(
        after.fen(),
        "rnbqkbnr/pppppppp/8/8/4P3/8/PPPP1PPP/RNBQKBNR b KQkq - 0 1"
    );
    assert_eq!(position.fen(), START);
}

#[test]
fn an_illegal_move_leaves_the_position_unchanged() {
    let mut position = Position::from_fen(START).unwrap();
    let error = position
        .apply_move(ChessMove::from_uci("e2e5").unwrap())
        .unwrap_err();
    assert_eq!(error.message(), "illegal move: illegal uci");
    assert_eq!(position.fen(), START);
    assert_eq!(
        position
            .algebraic(ChessMove::from_uci("e2e5").unwrap())
            .unwrap_err()
            .message(),
        "illegal move: illegal uci"
    );
}

#[test]
fn promotion_prefers_the_queen_and_castling_moves_the_king_two_squares() {
    let position = Position::from_fen("8/P7/6k1/8/8/8/8/4K2R w K - 0 1").unwrap();
    let from = Square::from_coords(0, 6).unwrap();
    let to = Square::from_coords(0, 7).unwrap();
    let promotion = position.legal_move(from, to).unwrap();
    assert_eq!(promotion.promotion(), Some(Role::Queen));
    assert_eq!(position.algebraic(promotion).unwrap(), "a8=Q");

    let castle = position
        .legal_move(
            Square::from_coords(4, 0).unwrap(),
            Square::from_coords(6, 0).unwrap(),
        )
        .unwrap();
    assert_eq!(castle, ChessMove::from_uci("e1g1").unwrap());
    assert_eq!(position.algebraic(castle).unwrap(), "O-O");
}

#[test]
fn squares_stay_on_the_board() {
    assert!(Square::from_coords(8, 0).is_none());
    assert!(Square::from_coords(0, 8).is_none());
    let h8 = Square::from_coords(7, 7).unwrap();
    assert_eq!(h8.index(), 63);
    assert_eq!(Square::from_index(63), h8);
    assert_eq!(Square::from_index(12), Square::from_coords(4, 1).unwrap());
}

#[test]
fn a_fen_is_written_back_as_shakmaty_writes_it() {
    let position =
        Position::from_fen("rnbqkbnr/pppppppp/8/8/4P3/8/PPPP1PPP/RNBQKBNR b KQkq e3 0 1").unwrap();
    assert_eq!(
        position.fen(),
        "rnbqkbnr/pppppppp/8/8/4P3/8/PPPP1PPP/RNBQKBNR b KQkq - 0 1"
    );
    assert_eq!(position.side_to_move(), Color::Black);
}

#[test]
fn uci_text_is_read_square_by_square() {
    let m = ChessMove::from_uci("e2e4").unwrap();
    assert_eq!(m.from, Square::from_index(12));
    assert_eq!(m.to, Square::from_index(28));
    assert_eq!(m.promotion(), None);
    let upper = ChessMove::from_uci("a7a8N").unwrap();
    assert_eq!(upper.from, Square::from_index(48));
    assert_eq!(upper.to, Square::from_index(56));
    assert_eq!(upper.promotion(), Some(Role::Knight));
    for text in ["e2e9", "i2e4", "E2e4", "e2e4x", "e2e4q1", "", "e2-e4"] {
        assert_eq!(
            ChessMove::from_uci(text).unwrap_err().message(),
            "invalid UCI move: invalid uci"
        );
    }
    assert_eq!(
        ChessMove::from_uci("x@e4").unwrap_err().message(),
        "invalid UCI move: invalid uci"
    );
}

#[test]
fn a_played_move_hands_the_turn_to_the_other_side() {
    let mut position = Position::from_fen(START).unwrap();
    assert_eq!(position.side_to_move(), Color::White);
    position
        .apply_move(ChessMove::from_uci("g1f3").unwrap())
        .unwrap();
    assert_eq!(position.side_to_move(), Color::Black);
    position
        .apply_move(ChessMove::from_uci("g8f6").unwrap())
        .unwrap();
    assert_eq!(position.side_to_move(), Color::White);
    assert!(position
        .apply_move(ChessMove::from_uci("g8f6").unwrap())
        .is_err());
    assert_eq!(position.side_to_move(), Color::White);
}
