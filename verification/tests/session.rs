use gnome_chess_puzzles::puzzle::{
    ChessMove, Color, MoveOutcome, Piece, Position, Progress, PuzzleSession, Role, TerminalState,
};

const STARTING_POSITION_BLACK_TO_MOVE: &str =
    "rnbqkbnr/pppppppp/8/8/8/8/PPPPPPPP/RNBQKBNR b KQkq - 0 1";

fn session(solution: &[&str]) -> PuzzleSession {
    PuzzleSession::new(
        Position::from_fen(STARTING_POSITION_BLACK_TO_MOVE).unwrap(),
        ChessMove::from_uci("e7e5").unwrap(),
        solution
            .iter()
            .map(|value| ChessMove::from_uci(value).unwrap())
            .collect(),
    )
    .unwrap()
}

fn uci(value: &str) -> ChessMove {
    ChessMove::from_uci(value).unwrap()
}

#[test]
fn correct_moves_apply_the_opponent_reply_and_complete_the_puzzle() {
    let mut session = session(&["g1f3", "b8c6", "d2d4"]);

    let outcome = session
        .play_user_move(ChessMove::from_uci("g1f3").unwrap())
        .unwrap();
    let MoveOutcome::Correct {
        user_move,
        opponent_move: Some(opponent_move),
    } = outcome
    else {
        panic!("expected a correct move with an opponent reply");
    };
    assert_eq!(user_move.algebraic, "Nf3");
    assert_eq!(opponent_move.algebraic, "Nc6");
    assert_eq!(session.progress(), Progress::InProgress);
    assert_eq!(
        session.position().piece_at(2, 5),
        Some(Piece {
            color: Color::Black,
            role: Role::Knight,
        })
    );

    session
        .play_user_move(ChessMove::from_uci("d2d4").unwrap())
        .unwrap();
    assert_eq!(
        session.progress(),
        Progress::Complete(TerminalState::Succeeded)
    );
}

#[test]
fn retry_restores_the_position_but_preserves_the_mistake() {
    let mut session = session(&["g1f3"]);
    let before_mistake = session.position().clone();

    let outcome = session
        .play_user_move(ChessMove::from_uci("b1c3").unwrap())
        .unwrap();
    assert!(matches!(outcome, MoveOutcome::Incorrect { .. }));
    assert_eq!(session.progress(), Progress::Incorrect);
    assert!(session.retry());
    assert_eq!(
        session.position().piece_at(1, 0),
        before_mistake.piece_at(1, 0)
    );

    session
        .play_user_move(ChessMove::from_uci("g1f3").unwrap())
        .unwrap();
    assert_eq!(
        session.progress(),
        Progress::Complete(TerminalState::SucceededAfterRetry)
    );
}

#[test]
fn showing_the_answer_fails_and_disables_both_actions() {
    let mut session = session(&["g1f3", "b8c6", "d2d4"]);

    let steps = session.show_answer().unwrap();
    assert_eq!(steps.len(), 3);
    assert_eq!(
        steps[0].played_move.chess_move,
        ChessMove::from_uci("g1f3").unwrap()
    );
    assert_eq!(steps[0].played_move.algebraic, "Nf3");
    assert_eq!(
        steps[1].played_move.chess_move,
        ChessMove::from_uci("b8c6").unwrap()
    );
    assert_eq!(steps[1].played_move.algebraic, "Nc6");
    assert_eq!(
        steps[2].played_move.chess_move,
        ChessMove::from_uci("d2d4").unwrap()
    );
    assert_eq!(steps[2].played_move.algebraic, "d4");
    assert_eq!(steps[0].position.piece_at(6, 0), None);
    assert_eq!(
        steps[1].position.piece_at(2, 5),
        Some(Piece {
            color: Color::Black,
            role: Role::Knight,
        })
    );

    let progress = session.progress();
    assert_eq!(progress, Progress::Complete(TerminalState::Failed));
    assert_eq!(progress.feedback_text(), "");
    assert!(!progress.retry_enabled());
    assert!(!progress.show_answer_enabled());
    assert_eq!(session.position().piece_at(6, 0), None);
    assert_eq!(
        session.position().piece_at(3, 3),
        Some(Piece {
            color: Color::White,
            role: Role::Pawn,
        })
    );
}

#[test]
fn showing_the_answer_discards_an_incorrect_move_first() {
    let mut session = session(&["g1f3"]);
    session
        .play_user_move(ChessMove::from_uci("b1c3").unwrap())
        .unwrap();

    session.show_answer().unwrap();

    assert_eq!(
        session.position().piece_at(1, 0),
        Some(Piece {
            color: Color::White,
            role: Role::Knight,
        })
    );
    assert_eq!(session.position().piece_at(6, 0), None);
    assert_eq!(
        session.position().piece_at(5, 2),
        Some(Piece {
            color: Color::White,
            role: Role::Knight,
        })
    );
}

#[test]
fn progress_exposes_the_incorrect_move_feedback() {
    assert_eq!(Progress::InProgress.feedback_text(), "");
    assert!(!Progress::InProgress.retry_enabled());
    assert!(Progress::InProgress.show_answer_enabled());
    assert_eq!(Progress::InProgress.terminal_state(), None);

    assert_eq!(
        Progress::Incorrect.feedback_text(),
        "That move is not correct."
    );
    assert!(Progress::Incorrect.retry_enabled());
    assert!(Progress::Incorrect.show_answer_enabled());
    assert_eq!(Progress::Incorrect.terminal_state(), None);

    for terminal_state in [TerminalState::Succeeded, TerminalState::SucceededAfterRetry] {
        let progress = Progress::Complete(terminal_state);
        assert_eq!(progress.feedback_text(), "You solved the puzzle.");
        assert!(!progress.retry_enabled());
        assert!(!progress.show_answer_enabled());
        assert_eq!(progress.terminal_state(), Some(terminal_state));
    }
}

#[test]
fn a_solution_must_have_an_odd_number_of_moves() {
    for solution in [vec![], vec![uci("g1f3"), uci("b8c6")]] {
        let error = PuzzleSession::new(
            Position::from_fen(STARTING_POSITION_BLACK_TO_MOVE).unwrap(),
            uci("e7e5"),
            solution,
        )
        .err()
        .unwrap();
        assert_eq!(
            error.message(),
            "a puzzle solution must contain an odd number of moves"
        );
    }
}

#[test]
fn an_illegal_setup_move_is_refused() {
    let error = PuzzleSession::new(
        Position::from_fen(STARTING_POSITION_BLACK_TO_MOVE).unwrap(),
        uci("e2e4"),
        vec![uci("g1f3")],
    )
    .err()
    .unwrap();
    assert_eq!(
        error.message(),
        "could not format setup move: illegal move: illegal uci"
    );
}

#[test]
fn a_started_session_shows_the_setup_move_and_counts_its_plies() {
    let session = session(&["g1f3", "b8c6", "d2d4"]);
    assert_eq!(session.setup_move().algebraic, "e5");
    assert_eq!(session.setup_move().ply, 0);
    assert_eq!(session.setup_move().color, Color::Black);
    assert_eq!(session.last_opponent_move(), uci("e7e5"));
    assert_eq!(session.total_plies(), 4);
    assert_eq!(session.position().side_to_move(), Color::White);
}

#[test]
fn plies_count_on_from_the_setup_move() {
    let mut session = session(&["g1f3", "b8c6", "d2d4"]);
    let MoveOutcome::Correct {
        user_move,
        opponent_move: Some(opponent_move),
    } = session.play_user_move(uci("g1f3")).unwrap()
    else {
        panic!("expected a reply");
    };
    assert_eq!((user_move.ply, user_move.color), (1, Color::White));
    assert_eq!((opponent_move.ply, opponent_move.color), (2, Color::Black));
    assert_eq!(session.last_opponent_move(), uci("b8c6"));
}

#[test]
fn a_completed_puzzle_refuses_every_action() {
    let mut session = session(&["g1f3"]);
    session.play_user_move(uci("g1f3")).unwrap();
    assert_eq!(session.progress(), Progress::Complete(TerminalState::Succeeded));
    let before = session.position().fen().to_owned();
    assert_eq!(
        session.play_user_move(uci("d2d4")).err().unwrap().message(),
        "the puzzle is not accepting a user move"
    );
    assert!(!session.retry());
    assert_eq!(
        session.show_answer().err().unwrap().message(),
        "the puzzle is already complete"
    );
    assert_eq!(session.position().fen(), before);
    assert_eq!(session.progress(), Progress::Complete(TerminalState::Succeeded));
}

#[test]
fn an_incorrect_move_blocks_moves_until_retried() {
    let mut session = session(&["g1f3"]);
    session.play_user_move(uci("b1c3")).unwrap();
    assert_eq!(
        session.play_user_move(uci("g1f3")).err().unwrap().message(),
        "the puzzle is not accepting a user move"
    );
    assert!(session.retry());
    assert!(!session.retry());
}

#[test]
fn an_illegal_user_move_is_refused_and_changes_nothing() {
    let mut session = session(&["g1f3"]);
    let before = session.position().fen().to_owned();
    assert_eq!(
        session.play_user_move(uci("e2e5")).err().unwrap().message(),
        "could not format user move: illegal move: illegal uci"
    );
    assert_eq!(session.position().fen(), before);
    assert_eq!(session.progress(), Progress::InProgress);
}

#[test]
fn showing_the_answer_after_a_mistake_still_fails_the_puzzle() {
    let mut session = session(&["g1f3", "b8c6", "d2d4"]);
    session.play_user_move(uci("b1c3")).unwrap();
    let steps = session.show_answer().unwrap();
    assert_eq!(steps.len(), 3);
    assert_eq!(steps[0].played_move.ply, 1);
    assert_eq!(steps[2].played_move.ply, 3);
    assert_eq!(session.progress(), Progress::Complete(TerminalState::Failed));
}

#[test]
fn an_illegal_reply_in_the_solution_stops_after_the_players_move() {
    let mut session = session(&["g1f3", "a7a1", "d2d4"]);
    assert_eq!(
        session.play_user_move(uci("g1f3")).err().unwrap().message(),
        "could not format opponent move: illegal move: illegal uci"
    );
    assert_eq!(session.progress(), Progress::InProgress);
    assert_eq!(
        session.position().fen(),
        "rnbqkbnr/pppp1ppp/8/4p3/8/5N2/PPPPPPPP/RNBQKB1R b KQkq - 1 2"
    );
    assert_eq!(session.last_opponent_move(), uci("e7e5"));
}

#[test]
fn an_answer_that_cannot_be_played_changes_nothing() {
    let mut session = session(&["g1f3", "a7a1", "d2d4"]);
    let before = session.position().fen().to_owned();
    assert_eq!(
        session.show_answer().err().unwrap().message(),
        "could not format answer move: illegal move: illegal uci"
    );
    assert_eq!(session.position().fen(), before);
    assert_eq!(session.progress(), Progress::InProgress);
}

#[test]
fn the_player_keeps_one_color_and_odd_plies() {
    let mut session = session(&["g1f3", "b8c6", "d2d4"]);
    let player = session.position().side_to_move();
    assert_eq!(player, Color::White);
    assert_eq!(session.setup_move().color, Color::Black);

    let MoveOutcome::Incorrect { user_move } = session.play_user_move(uci("b1c3")).unwrap() else {
        panic!("expected an incorrect move");
    };
    assert_eq!(user_move.color, player);
    assert_eq!(user_move.ply, 1);
    assert!(session.retry());
    assert_eq!(session.position().side_to_move(), player);

    let MoveOutcome::Correct {
        user_move,
        opponent_move: Some(reply),
    } = session.play_user_move(uci("g1f3")).unwrap()
    else {
        panic!("expected a correct move with a reply");
    };
    assert_eq!((user_move.color, user_move.ply), (player, 1));
    assert_eq!((reply.color, reply.ply), (Color::Black, 2));
    assert_eq!(session.position().side_to_move(), player);

    let MoveOutcome::Correct {
        user_move,
        opponent_move: None,
    } = session.play_user_move(uci("d2d4")).unwrap()
    else {
        panic!("expected the last correct move");
    };
    assert_eq!((user_move.color, user_move.ply), (player, 3));
    assert_eq!(session.total_plies(), 4);
}
