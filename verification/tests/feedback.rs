use gnome_chess_puzzles::feedback::{
    border_state, completed_result, controls_after_move, progress_controls, progress_feedback_text,
    reply_pending, BorderState,
};
use gnome_chess_puzzles::history::RatingUpdate;
use gnome_chess_puzzles::puzzle::{Progress, TerminalState};

#[test]
fn terminal_feedback_includes_rating_and_signed_change() {
    let cases = [
        (
            TerminalState::Succeeded,
            RatingUpdate {
                rating: 503,
                change: 3,
            },
            "You solved the puzzle.\nYour rating is now 503 (+3).",
        ),
        (
            TerminalState::SucceededAfterRetry,
            RatingUpdate {
                rating: 498,
                change: -5,
            },
            "You solved the puzzle with retries.\nYour rating is now 498 (-5).",
        ),
        (
            TerminalState::Failed,
            RatingUpdate {
                rating: 498,
                change: -5,
            },
            "You did not solve the puzzle.\nYour rating is now 498 (-5).",
        ),
    ];

    for (terminal_state, rating_update, expected) in cases {
        assert_eq!(
            progress_feedback_text(Progress::Complete(terminal_state), Some(rating_update)),
            expected
        );
    }
}

#[test]
fn in_progress_feedback_is_unchanged() {
    assert_eq!(progress_feedback_text(Progress::InProgress, None), "");
    assert_eq!(
        progress_feedback_text(Progress::Incorrect, None),
        "That move is not correct."
    );
}

#[test]
fn a_zero_change_and_negative_ratings_are_written_in_full() {
    assert_eq!(
        progress_feedback_text(
            Progress::Complete(TerminalState::Failed),
            Some(RatingUpdate {
                rating: -12,
                change: 0
            })
        ),
        "You did not solve the puzzle.\nYour rating is now -12 (+0)."
    );
    assert_eq!(
        progress_feedback_text(Progress::Complete(TerminalState::Succeeded), None),
        "You solved the puzzle."
    );
}

#[test]
fn the_controls_follow_the_progress() {
    let incorrect = progress_controls(Progress::Incorrect, None);
    assert_eq!(incorrect.border_state, BorderState::InProgress);
    assert!(incorrect.retry_sensitive);
    assert!(incorrect.show_answer_sensitive);
    let failed = progress_controls(Progress::Complete(TerminalState::Failed), None);
    assert_eq!(failed.border_state, BorderState::Failed);
    assert!(!failed.retry_sensitive);
    assert!(!failed.show_answer_sensitive);
    assert_eq!(failed.text, "");
    assert_eq!(
        border_state(Progress::Complete(TerminalState::SucceededAfterRetry)),
        BorderState::SucceededAfterRetry
    );
}

#[test]
fn a_result_is_recorded_only_by_the_action_that_completes_the_puzzle() {
    let done = Progress::Complete(TerminalState::SucceededAfterRetry);
    assert_eq!(
        completed_result(Progress::InProgress, done),
        Some(TerminalState::SucceededAfterRetry)
    );
    assert_eq!(
        completed_result(
            Progress::Incorrect,
            Progress::Complete(TerminalState::Failed)
        ),
        Some(TerminalState::Failed)
    );
    assert_eq!(completed_result(done, done), None);
    assert_eq!(
        completed_result(Progress::InProgress, Progress::Incorrect),
        None
    );
    assert_eq!(
        completed_result(Progress::Incorrect, Progress::InProgress),
        None
    );
}

#[test]
fn the_answer_waits_for_the_opponents_reply() {
    let waiting = controls_after_move(Progress::InProgress, None, true);
    assert!(!waiting.show_answer_sensitive);
    assert!(!waiting.retry_sensitive);
    assert_eq!(waiting.border_state, BorderState::InProgress);
    let shown = controls_after_move(Progress::InProgress, None, false);
    assert!(shown.show_answer_sensitive);
    let incorrect = controls_after_move(Progress::Incorrect, None, false);
    assert!(incorrect.show_answer_sensitive && incorrect.retry_sensitive);
}

#[test]
fn only_a_correct_move_with_a_reply_leaves_a_reply_pending() {
    let position = gnome_chess_puzzles::puzzle::Position::from_fen(
        "rnbqkbnr/pppppppp/8/8/8/8/PPPPPPPP/RNBQKBNR b KQkq - 0 1",
    )
    .unwrap();
    let uci = |value: &str| gnome_chess_puzzles::puzzle::ChessMove::from_uci(value).unwrap();
    let mut session = gnome_chess_puzzles::puzzle::PuzzleSession::new(
        position,
        uci("e7e5"),
        vec![uci("g1f3"), uci("b8c6"), uci("d2d4")],
    )
    .unwrap();
    let wrong = session.play_user_move(uci("b1c3")).unwrap();
    assert!(!reply_pending(&wrong));
    assert!(session.retry());
    let answered = session.play_user_move(uci("g1f3")).unwrap();
    assert!(reply_pending(&answered));
    let last = session.play_user_move(uci("d2d4")).unwrap();
    assert!(!reply_pending(&last));
}
