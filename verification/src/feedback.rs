//! What the progress area shows: the board's border, the progress text with
//! the rating update, and which actions are offered.
use vstd::prelude::*;
use vstd::string::*;

use crate::history::RatingUpdate;
use crate::puzzle::model::ChessMove;
use crate::puzzle::session::{
    law_actions_keep_sessions_well_formed, law_completion_is_final, play, retry, show_answer,
    MoveOutcome, MoveOutcomeView, Progress, SessionView, TerminalState,
};
use crate::text::{push_signed_decimal, signed_decimal};

verus! {

/// The border drawn around the board, following the puzzle's progress.
#[derive(Clone, Copy, Debug, PartialEq, Eq, Structural)]
pub enum BorderState {
    InProgress,
    Succeeded,
    SucceededAfterRetry,
    Failed,
}

/// The border for a progress.
pub open spec fn border_of(progress: Progress) -> BorderState {
    match progress {
        Progress::Complete(TerminalState::Succeeded) => BorderState::Succeeded,
        Progress::Complete(TerminalState::SucceededAfterRetry) => BorderState::SucceededAfterRetry,
        Progress::Complete(TerminalState::Failed) => BorderState::Failed,
        _ => BorderState::InProgress,
    }
}

/// The border for a progress.
pub fn border_state(progress: Progress) -> (r: BorderState)
    ensures
        r == border_of(progress),
{
    match progress.terminal_state() {
        None => BorderState::InProgress,
        Some(TerminalState::Succeeded) => BorderState::Succeeded,
        Some(TerminalState::SucceededAfterRetry) => BorderState::SucceededAfterRetry,
        Some(TerminalState::Failed) => BorderState::Failed,
    }
}

/// The sentence that announces how a puzzle ended.
pub open spec fn result_sentence(terminal_state: TerminalState) -> Seq<char> {
    match terminal_state {
        TerminalState::Succeeded => "You solved the puzzle."@,
        TerminalState::SucceededAfterRetry => "You solved the puzzle with retries."@,
        TerminalState::Failed => "You did not solve the puzzle."@,
    }
}

/// The progress text: for a completed puzzle with a rating update, how it
/// ended and the new rating with its signed change; otherwise the
/// progress's own text.
pub open spec fn feedback_of(progress: Progress, rating_update: Option<RatingUpdate>) -> Seq<char> {
    match (progress, rating_update) {
        (Progress::Complete(terminal_state), Some(update)) => result_sentence(terminal_state)
            + "\nYour rating is now "@ + signed_decimal(update.rating as int, false) + " ("@
            + signed_decimal(update.change as int, true) + ")."@,
        _ => progress.feedback(),
    }
}

/// The progress text.
pub fn progress_feedback_text(progress: Progress, rating_update: Option<RatingUpdate>) -> (r: String)
    ensures
        r@ == feedback_of(progress, rating_update),
{
    match (progress, rating_update) {
        (Progress::Complete(terminal_state), Some(update)) => {
            let mut text = String::from_str(
                match terminal_state {
                    TerminalState::Succeeded => "You solved the puzzle.",
                    TerminalState::SucceededAfterRetry => "You solved the puzzle with retries.",
                    TerminalState::Failed => "You did not solve the puzzle.",
                },
            );
            text.append("\nYour rating is now ");
            push_signed_decimal(&mut text, update.rating as i64, false);
            text.append(" (");
            push_signed_decimal(&mut text, update.change as i64, true);
            text.append(").");
            text
        },
        _ => String::from_str(progress.feedback_text()),
    }
}

/// How the progress area looks.
#[derive(Clone, Debug)]
pub struct ProgressControls {
    pub border_state: BorderState,
    pub text: String,
    pub retry_sensitive: bool,
    pub show_answer_sensitive: bool,
}

/// How the progress area looks for a progress and an optional rating update:
/// the border, the text, and the retry and show-answer actions exactly when
/// the progress allows them.
pub fn progress_controls(progress: Progress, rating_update: Option<RatingUpdate>) -> (r:
    ProgressControls)
    ensures
        r.border_state == border_of(progress),
        r.text@ == feedback_of(progress, rating_update),
        r.retry_sensitive == progress.allows_retry(),
        r.show_answer_sensitive == progress.allows_show_answer(),
{
    ProgressControls {
        border_state: border_state(progress),
        text: progress_feedback_text(progress, rating_update),
        retry_sensitive: progress.retry_enabled(),
        show_answer_sensitive: progress.show_answer_enabled(),
    }
}

/// Whether the player's move is answered by a reply of the opponent, which
/// the board shows after a pause.
pub fn reply_pending(outcome: &MoveOutcome) -> (r: bool)
    ensures
        r == (outcome@ matches MoveOutcomeView::Correct { opponent_move: Some(_), .. }),
{
    match outcome {
        MoveOutcome::Correct { opponent_move: Some(_), .. } => true,
        _ => false,
    }
}

/// How the progress area looks right after the player's move: as
/// `progress_controls` says, except that the answer cannot be asked for
/// while the opponent's reply is still to be shown.
pub fn controls_after_move(
    progress: Progress,
    rating_update: Option<RatingUpdate>,
    reply_pending: bool,
) -> (r: ProgressControls)
    ensures
        r.border_state == border_of(progress),
        r.text@ == feedback_of(progress, rating_update),
        r.retry_sensitive == progress.allows_retry(),
        r.show_answer_sensitive == (progress.allows_show_answer() && !reply_pending),
{
    let mut controls = progress_controls(progress, rating_update);
    if reply_pending {
        controls.show_answer_sensitive = false;
    }
    controls
}

/// The result to record after an action that took the puzzle from
/// `before` to `after`: how it ended, when that action completed it.
pub open spec fn completion_of(before: Progress, after: Progress) -> Option<TerminalState> {
    match (before, after) {
        (Progress::Complete(_), _) => None,
        (_, Progress::Complete(terminal_state)) => Some(terminal_state),
        _ => None,
    }
}

/// The result to record after an action: how the puzzle ended, when the
/// action completed it, and `None` when it was already complete or is not.
pub fn completed_result(before: Progress, after: Progress) -> (r: Option<TerminalState>)
    ensures
        r == completion_of(before, after),
{
    match before {
        Progress::Complete(_) => None,
        _ => after.terminal_state(),
    }
}

/// Whether session `after` is what one action of the player makes of
/// `before`: a move, a retry or a revealed answer.
pub open spec fn one_action(before: SessionView, after: SessionView) -> bool {
    ||| exists|m: ChessMove| #[trigger] play(before, m).0 == after
    ||| retry(before).0 == after
    ||| show_answer(before).0 == after
}

/// Whether `states` is a run of a session: a well-formed start, then one
/// action after another.
pub open spec fn is_run(states: Seq<SessionView>) -> bool {
    &&& states.len() > 0
    &&& states[0].wf()
    &&& forall|i: int| 0 <= i < states.len() - 1 ==> #[trigger] one_action(states[i], states[i + 1])
}

proof fn lemma_run_well_formed(states: Seq<SessionView>, k: int)
    requires
        is_run(states),
        0 <= k < states.len(),
    ensures
        states[k].wf(),
    decreases k,
{
    if k > 0 {
        lemma_run_well_formed(states, k - 1);
        let p = k - 1;
        assert(one_action(states[p], states[p + 1]));
        if exists|m: ChessMove| #[trigger] play(states[k - 1], m).0 == states[k] {
            let m = choose|m: ChessMove| #[trigger] play(states[k - 1], m).0 == states[k];
            law_actions_keep_sessions_well_formed(states[k - 1], m);
        } else {
            law_actions_keep_sessions_well_formed(states[k - 1], states[0].last_opponent_move);
        }
    }
}

proof fn lemma_run_stays_complete(states: Seq<SessionView>, from: int, k: int)
    requires
        is_run(states),
        0 <= from <= k < states.len(),
        states[from].progress is Complete,
    ensures
        states[k] == states[from],
    decreases k - from,
{
    if k > from {
        lemma_run_stays_complete(states, from, k - 1);
        lemma_run_well_formed(states, k - 1);
        let p = k - 1;
        assert(one_action(states[p], states[p + 1]));
        law_completion_is_final(states[k - 1], states[0].last_opponent_move);
        if exists|m: ChessMove| #[trigger] play(states[k - 1], m).0 == states[k] {
            let m = choose|m: ChessMove| #[trigger] play(states[k - 1], m).0 == states[k];
            law_completion_is_final(states[k - 1], m);
        }
    }
}

/// Along a run of a session, at most one action completes the puzzle, so a
/// result is recorded once: after it, no action gives a result to record.
pub proof fn law_a_result_is_recorded_once(states: Seq<SessionView>, i: int, j: int)
    requires
        is_run(states),
        0 <= i < j,
        j + 1 < states.len(),
        completion_of(states[i].progress, states[i + 1].progress) is Some,
    ensures
        completion_of(states[j].progress, states[j + 1].progress) is None,
{
    lemma_run_stays_complete(states, i + 1, j);
}

} // verus!
