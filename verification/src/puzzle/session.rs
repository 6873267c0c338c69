//! The puzzle session: the state machine that checks the player's moves
//! against the solution line, plays the opponent's replies, and handles
//! retries and revealed answers.
use vstd::prelude::*;
use vstd::string::*;

use crate::puzzle::model::{
    algebraic_in, play_in, result_view, side_to_move_in, ChessMove, Color, Position,
};
use crate::text::joined;

verus! {

/// How a completed puzzle ended.
#[derive(Clone, Copy, Debug, PartialEq, Eq, Structural)]
pub enum TerminalState {
    Succeeded,
    SucceededAfterRetry,
    Failed,
}

/// Where the player stands in a puzzle.
#[derive(Clone, Copy, Debug, PartialEq, Eq, Structural)]
pub enum Progress {
    InProgress,
    Incorrect,
    Complete(TerminalState),
}

impl Progress {
    /// The text shown for this progress.
    pub open spec fn feedback(self) -> Seq<char> {
        match self {
            Progress::Incorrect => "That move is not correct."@,
            Progress::Complete(TerminalState::Succeeded) => "You solved the puzzle."@,
            Progress::Complete(TerminalState::SucceededAfterRetry) => "You solved the puzzle."@,
            _ => ""@,
        }
    }

    /// Whether the player may take back an incorrect move.
    pub open spec fn allows_retry(self) -> bool {
        self == Progress::Incorrect
    }

    /// Whether the player may ask for the answer.
    pub open spec fn allows_show_answer(self) -> bool {
        self == Progress::InProgress || self == Progress::Incorrect
    }

    /// How the puzzle ended, once it has.
    pub open spec fn terminal(self) -> Option<TerminalState> {
        match self {
            Progress::Complete(terminal_state) => Some(terminal_state),
            _ => None,
        }
    }

    /// The text shown for this progress.
    pub fn feedback_text(self) -> (r: &'static str)
        ensures
            r@ == self.feedback(),
    {
        match self {
            Progress::Incorrect => "That move is not correct.",
            Progress::Complete(TerminalState::Succeeded) => "You solved the puzzle.",
            Progress::Complete(TerminalState::SucceededAfterRetry) => "You solved the puzzle.",
            Progress::InProgress => "",
            Progress::Complete(TerminalState::Failed) => "",
        }
    }

    /// Whether the retry action is available.
    pub fn retry_enabled(self) -> (r: bool)
        ensures
            r == self.allows_retry(),
    {
        match self {
            Progress::Incorrect => true,
            _ => false,
        }
    }

    /// Whether the show-answer action is available.
    pub fn show_answer_enabled(self) -> (r: bool)
        ensures
            r == self.allows_show_answer(),
    {
        match self {
            Progress::InProgress => true,
            Progress::Incorrect => true,
            Progress::Complete(_) => false,
        }
    }

    /// How the puzzle ended, once it has.
    pub fn terminal_state(self) -> (r: Option<TerminalState>)
        ensures
            r == self.terminal(),
    {
        match self {
            Progress::Complete(terminal_state) => Some(terminal_state),
            Progress::InProgress => None,
            Progress::Incorrect => None,
        }
    }
}

/// A move together with the side that played it, its algebraic notation and
/// its ply (the setup move has ply 0).
#[derive(Clone, Debug, PartialEq, Eq)]
pub struct NotatedMove {
    pub chess_move: ChessMove,
    pub color: Color,
    pub algebraic: String,
    pub ply: usize,
}

/// A notated move as a value.
pub struct NotatedMoveView {
    pub chess_move: ChessMove,
    pub color: Color,
    pub algebraic: Seq<char>,
    pub ply: nat,
}

impl View for NotatedMove {
    type V = NotatedMoveView;

    open spec fn view(&self) -> NotatedMoveView {
        NotatedMoveView {
            chess_move: self.chess_move,
            color: self.color,
            algebraic: self.algebraic@,
            ply: self.ply as nat,
        }
    }
}

/// The result of a move the player made.
#[derive(Clone, Debug, PartialEq, Eq)]
pub enum MoveOutcome {
    Incorrect { user_move: NotatedMove },
    Correct { user_move: NotatedMove, opponent_move: Option<NotatedMove> },
}

/// A move outcome as a value.
pub enum MoveOutcomeView {
    Incorrect { user_move: NotatedMoveView },
    Correct { user_move: NotatedMoveView, opponent_move: Option<NotatedMoveView> },
}

impl View for MoveOutcome {
    type V = MoveOutcomeView;

    open spec fn view(&self) -> MoveOutcomeView {
        match self {
            MoveOutcome::Incorrect { user_move } => MoveOutcomeView::Incorrect {
                user_move: user_move@,
            },
            MoveOutcome::Correct { user_move, opponent_move } => MoveOutcomeView::Correct {
                user_move: user_move@,
                opponent_move: match opponent_move {
                    Some(m) => Some(m@),
                    None => None,
                },
            },
        }
    }
}

/// One move of a revealed answer and the position it leads to.
#[derive(Clone, Debug)]
pub struct AnswerStep {
    pub played_move: NotatedMove,
    pub position: Position,
}

/// An answer step as a value.
pub struct AnswerStepView {
    pub played_move: NotatedMoveView,
    pub position: Seq<char>,
}

impl View for AnswerStep {
    type V = AnswerStepView;

    open spec fn view(&self) -> AnswerStepView {
        AnswerStepView { played_move: self.played_move@, position: self.position@ }
    }
}

/// The answer steps of a list, each as a value.
pub open spec fn steps_view(steps: Seq<AnswerStep>) -> Seq<AnswerStepView> {
    steps.map_values(|step: AnswerStep| step@)
}

/// Why a session could not be started or could not take an action.
#[derive(Debug)]
pub struct SessionError(String);

impl View for SessionError {
    type V = Seq<char>;

    closed spec fn view(&self) -> Seq<char> {
        self.0@
    }
}

impl SessionError {
    /// The description of the problem.
    pub fn message(&self) -> (r: &str)
        ensures
            r@ == self@,
    {
        self.0.as_str()
    }
}

/// The state of a puzzle session as a value.
pub struct SessionView {
    /// The position on the board.
    pub position: Seq<char>,
    /// The solution line: the player's moves at even indexes, the
    /// opponent's replies at odd ones.
    pub solution: Seq<ChessMove>,
    /// The index in the solution of the next move to play.
    pub next_move: nat,
    /// Whether the player has made an incorrect move.
    pub made_mistake: bool,
    pub progress: Progress,
    /// The position before the incorrect move, while one stands.
    pub retry_position: Option<Seq<char>>,
    pub last_opponent_move: ChessMove,
    pub setup_move: NotatedMoveView,
}

impl SessionView {
    /// What every session keeps: an odd solution, the next move within it, a
    /// retry position exactly while a move is incorrect, and a result that
    /// matches whether a mistake was made.
    pub open spec fn wf(self) -> bool {
        &&& self.solution.len() % 2 == 1
        &&& self.solution.len() < usize::MAX
        &&& self.next_move <= self.solution.len()
        &&& (self.retry_position is Some <==> self.progress == Progress::Incorrect)
        &&& (self.progress == Progress::Incorrect ==> self.made_mistake)
        &&& (self.progress == Progress::Complete(TerminalState::Succeeded) ==> !self.made_mistake)
        &&& (self.progress == Progress::Complete(TerminalState::SucceededAfterRetry)
            ==> self.made_mistake)
        &&& (self.progress is Complete ==> self.next_move == self.solution.len())
    }
}

impl SessionView {
    /// Whether `player` is the side solving the puzzle: while it waits for a
    /// move, `player` is to move and the next move of the solution has an even
    /// index; while an incorrect move stands, the same holds of the position
    /// before that move.
    pub open spec fn player_turn(self, player: Color) -> bool {
        match self.progress {
            Progress::InProgress => self.next_move % 2 == 0 && side_to_move_in(self.position)
                == player,
            Progress::Incorrect => self.next_move % 2 == 0 && (self.retry_position matches Some(
                before,
            ) && side_to_move_in(before) == player),
            Progress::Complete(_) => true,
        }
    }
}

/// A move of `player` with an odd ply within a solution of `plies` moves.
pub open spec fn player_move(m: NotatedMoveView, player: Color, plies: nat) -> bool {
    m.color == player && m.ply % 2 == 1 && m.ply <= plies
}

/// The moves of an outcome keep to the turns: the player's move is one of
/// `player`'s, and the reply, if any, has the other color and the next ply.
pub open spec fn moves_alternate(outcome: MoveOutcomeView, player: Color, plies: nat) -> bool {
    match outcome {
        MoveOutcomeView::Incorrect { user_move } => player_move(user_move, player, plies),
        MoveOutcomeView::Correct { user_move, opponent_move } => {
            &&& player_move(user_move, player, plies)
            &&& (opponent_move matches Some(reply) ==> reply.color != player && reply.ply
                == user_move.ply + 1)
        },
    }
}

/// What a move of the player keeps of the turns in session `before`, given
/// what `play` gives: the moves alternate, and the session after it is still
/// `player`'s to solve unless it was changed and then refused.
pub open spec fn keeps_turns(
    before: SessionView,
    after: (SessionView, Result<MoveOutcomeView, Seq<char>>),
    player: Color,
) -> bool {
    &&& (after.1 is Ok || after.0 == before) ==> after.0.player_turn(player)
    &&& (after.1 matches Ok(outcome) ==> moves_alternate(outcome, player, before.solution.len()))
}

/// The notated form of move `m`, played with ply `ply` in the position of
/// `fen`, or the error message.
pub open spec fn notate(fen: Seq<char>, m: ChessMove, ply: nat) -> Result<NotatedMoveView, Seq<char>> {
    match algebraic_in(fen, m) {
        Err(message) => Err(message),
        Ok(algebraic) => Ok(
            NotatedMoveView { chess_move: m, color: side_to_move_in(fen), algebraic, ply },
        ),
    }
}

/// The session that starts from `initial` once the setup move is played, or
/// the error message.
pub open spec fn start(initial: Seq<char>, setup: ChessMove, solution: Seq<ChessMove>) -> Result<
    SessionView,
    Seq<char>,
> {
    if solution.len() == 0 || solution.len() % 2 == 0 {
        Err("a puzzle solution must contain an odd number of moves"@)
    } else {
        match notate(initial, setup, 0) {
            Err(message) => Err("could not format setup move: "@ + message),
            Ok(setup_move) => match play_in(initial, setup) {
                Err(message) => Err("could not apply setup move: "@ + message),
                Ok(position) => Ok(
                    SessionView {
                        position,
                        solution,
                        next_move: 0,
                        made_mistake: false,
                        progress: Progress::InProgress,
                        retry_position: None,
                        last_opponent_move: setup,
                        setup_move,
                    },
                ),
            },
        }
    }
}

/// The session after the player plays `user_move`, and what the move gives.
pub open spec fn play(s: SessionView, user_move: ChessMove) -> (SessionView, Result<MoveOutcomeView, Seq<char>>) {
    if s.progress != Progress::InProgress {
        (s, Err("the puzzle is not accepting a user move"@))
    } else {
        match notate(s.position, user_move, s.next_move + 1) {
            Err(message) => (s, Err("could not format user move: "@ + message)),
            Ok(user) => match play_in(s.position, user_move) {
                Err(message) => (s, Err("could not apply user move: "@ + message)),
                Ok(after_user) => {
                    if !(s.next_move < s.solution.len() && s.solution[s.next_move as int]
                        == user_move) {
                        (
                            SessionView {
                                position: after_user,
                                made_mistake: true,
                                progress: Progress::Incorrect,
                                retry_position: Some(s.position),
                                ..s
                            },
                            Ok(MoveOutcomeView::Incorrect { user_move: user }),
                        )
                    } else if s.next_move + 1 == s.solution.len() {
                        (
                            SessionView {
                                position: after_user,
                                next_move: s.next_move + 1,
                                progress: Progress::Complete(
                                    if s.made_mistake {
                                        TerminalState::SucceededAfterRetry
                                    } else {
                                        TerminalState::Succeeded
                                    },
                                ),
                                ..s
                            },
                            Ok(MoveOutcomeView::Correct { user_move: user, opponent_move: None }),
                        )
                    } else {
                        let replied = s.next_move + 1;
                        let reply = s.solution[replied as int];
                        let waiting = SessionView { position: after_user, next_move: replied, ..s };
                        match notate(after_user, reply, replied + 1) {
                            Err(message) => (
                                waiting,
                                Err("could not format opponent move: "@ + message),
                            ),
                            Ok(opponent) => match play_in(after_user, reply) {
                                Err(message) => (
                                    waiting,
                                    Err("could not apply opponent move: "@ + message),
                                ),
                                Ok(after_reply) => (
                                    SessionView {
                                        position: after_reply,
                                        next_move: replied + 1,
                                        last_opponent_move: reply,
                                        ..waiting
                                    },
                                    Ok(
                                        MoveOutcomeView::Correct {
                                            user_move: user,
                                            opponent_move: Some(opponent),
                                        },
                                    ),
                                ),
                            },
                        }
                    }
                },
            },
        }
    }
}

/// The session after the player asks to retry, and whether it was accepted.
pub open spec fn retry(s: SessionView) -> (SessionView, bool) {
    if s.progress != Progress::Incorrect {
        (s, false)
    } else {
        match s.retry_position {
            None => (s, false),
            Some(position) => (
                SessionView {
                    position,
                    progress: Progress::InProgress,
                    retry_position: None,
                    ..s
                },
                true,
            ),
        }
    }
}

/// Playing `moves` from the position of `fen`, the first with ply `ply`:
/// the steps and the final position, or the error message.
pub open spec fn answer_steps(fen: Seq<char>, moves: Seq<ChessMove>, ply: nat) -> Result<
    (Seq<AnswerStepView>, Seq<char>),
    Seq<char>,
>
    decreases moves.len(),
{
    if moves.len() == 0 {
        Ok((Seq::empty(), fen))
    } else {
        match notate(fen, moves[0], ply) {
            Err(message) => Err("could not format answer move: "@ + message),
            Ok(played_move) => match play_in(fen, moves[0]) {
                Err(message) => Err("could not apply answer move: "@ + message),
                Ok(next) => match answer_steps(next, moves.drop_first(), ply + 1) {
                    Err(message) => Err(message),
                    Ok((rest, last)) => Ok(
                        (seq![AnswerStepView { played_move, position: next }] + rest, last),
                    ),
                },
            },
        }
    }
}

/// The session after the player asks for the answer, and the answer's steps.
pub open spec fn show_answer(s: SessionView) -> (SessionView, Result<Seq<AnswerStepView>, Seq<char>>) {
    if !s.progress.allows_show_answer() {
        (s, Err("the puzzle is already complete"@))
    } else if s.progress == Progress::Incorrect && s.retry_position is None {
        (s, Err("the retry position is unavailable"@))
    } else if s.next_move >= s.solution.len() {
        (s, Err("the puzzle has no remaining answer moves"@))
    } else {
        let from = if s.progress == Progress::Incorrect {
            s.retry_position->0
        } else {
            s.position
        };
        match answer_steps(
            from,
            s.solution.subrange(s.next_move as int, s.solution.len() as int),
            s.next_move + 1,
        ) {
            Err(message) => (s, Err(message)),
            Ok((steps, last)) => (
                SessionView {
                    position: last,
                    next_move: s.solution.len(),
                    progress: Progress::Complete(TerminalState::Failed),
                    retry_position: None,
                    ..s
                },
                Ok(steps),
            ),
        }
    }
}

/// A puzzle being solved.
pub struct PuzzleSession {
    position: Position,
    solution: Vec<ChessMove>,
    next_move: usize,
    made_mistake: bool,
    progress: Progress,
    retry_position: Option<Position>,
    last_opponent_move: ChessMove,
    setup_move: NotatedMove,
}

impl View for PuzzleSession {
    type V = SessionView;

    closed spec fn view(&self) -> SessionView {
        SessionView {
            position: self.position@,
            solution: self.solution@,
            next_move: self.next_move as nat,
            made_mistake: self.made_mistake,
            progress: self.progress,
            retry_position: match self.retry_position {
                Some(p) => Some(p@),
                None => None,
            },
            last_opponent_move: self.last_opponent_move,
            setup_move: self.setup_move@,
        }
    }
}

// ---------------------------------------------------------------------------
// Laws of a session.
// ---------------------------------------------------------------------------

/// A session that starts is well formed, and every action keeps it so.
pub proof fn law_actions_keep_sessions_well_formed(s: SessionView, m: ChessMove)
    requires
        s.wf(),
    ensures
        play(s, m).0.wf(),
        retry(s).0.wf(),
        show_answer(s).0.wf(),
{
}

/// No action changes the solution, so the number of plies of a puzzle, the
/// setup move and the solution, stays what it was when the session started.
pub proof fn law_the_solution_never_changes(s: SessionView, m: ChessMove)
    ensures
        play(s, m).0.solution == s.solution,
        retry(s).0.solution == s.solution,
        show_answer(s).0.solution == s.solution,
{
}

/// Taking back an incorrect move or revealing the answer leaves the puzzle
/// to the side that was solving it.
pub proof fn law_the_player_keeps_their_side(s: SessionView, player: Color)
    requires
        s.wf(),
        s.player_turn(player),
    ensures
        retry(s).0.player_turn(player),
        show_answer(s).0.player_turn(player),
{
}

/// A started session waits for the player's first move, with the setup move
/// played and no mistake recorded.
pub proof fn law_start_waits_for_the_first_move(
    initial: Seq<char>,
    setup: ChessMove,
    solution: Seq<ChessMove>,
)
    requires
        solution.len() < usize::MAX,
        start(initial, setup, solution) is Ok,
    ensures
        start(initial, setup, solution)->Ok_0.wf(),
        start(initial, setup, solution)->Ok_0.progress == Progress::InProgress,
        start(initial, setup, solution)->Ok_0.next_move == 0,
        !start(initial, setup, solution)->Ok_0.made_mistake,
        start(initial, setup, solution)->Ok_0.setup_move.ply == 0,
        start(initial, setup, solution)->Ok_0.last_opponent_move == setup,
{
}

/// An incorrect move followed by a retry gives back the session as it was
/// before the move, except that the mistake stays recorded.
pub proof fn law_retry_undoes_an_incorrect_move(s: SessionView, m: ChessMove)
    requires
        s.wf(),
        play(s, m).1 matches Ok(MoveOutcomeView::Incorrect { .. }),
    ensures
        retry(play(s, m).0) == (SessionView { made_mistake: true, ..s }, true),
{
}

/// Once a mistake is recorded no action removes it, and the puzzle can no
/// longer end as a clean success.
pub proof fn law_a_mistake_is_permanent(s: SessionView, m: ChessMove)
    requires
        s.wf(),
        s.made_mistake,
    ensures
        play(s, m).0.made_mistake,
        retry(s).0.made_mistake,
        show_answer(s).0.made_mistake,
        play(s, m).0.progress != Progress::Complete(TerminalState::Succeeded),
        retry(s).0.progress != Progress::Complete(TerminalState::Succeeded),
        show_answer(s).0.progress != Progress::Complete(TerminalState::Succeeded),
{
}

/// A puzzle is solved by the player's move exactly when that move is the
/// last one of the solution; it counts as a clean success exactly when no
/// mistake was made before.
pub proof fn law_the_last_correct_move_completes_the_puzzle(s: SessionView, m: ChessMove)
    requires
        s.wf(),
        play(s, m).1 is Ok,
    ensures
        (play(s, m).0.progress is Complete) <==> (s.next_move + 1 == s.solution.len()
            && s.solution[s.next_move as int] == m),
        play(s, m).0.progress == Progress::Complete(TerminalState::Succeeded) <==> (
        s.next_move + 1 == s.solution.len() && s.solution[s.next_move as int] == m
            && !s.made_mistake),
{
}

/// The player may move only while the puzzle is in progress; a move is
/// refused otherwise and changes nothing.
pub proof fn law_moves_are_taken_only_in_progress(s: SessionView, m: ChessMove)
    requires
        s.wf(),
        s.progress != Progress::InProgress,
    ensures
        play(s, m) == (s, Err::<MoveOutcomeView, Seq<char>>(
            "the puzzle is not accepting a user move"@,
        )),
{
}

/// A completed puzzle is final: every action leaves it as it is, and none
/// is accepted.
pub proof fn law_completion_is_final(s: SessionView, m: ChessMove)
    requires
        s.wf(),
        s.progress is Complete,
    ensures
        play(s, m).0 == s,
        play(s, m).1 is Err,
        retry(s) == (s, false),
        show_answer(s).0 == s,
        show_answer(s).1 is Err,
{
}

/// The controls match the actions: a retry is accepted exactly when
/// `retry_enabled` holds, and the answer is refused as complete exactly when
/// `show_answer_enabled` does not hold.
pub proof fn law_controls_match_actions(s: SessionView)
    requires
        s.wf(),
    ensures
        retry(s).1 == s.progress.allows_retry(),
        !s.progress.allows_show_answer() ==> show_answer(s) == (s, Err::<
            Seq<AnswerStepView>,
            Seq<char>,
        >("the puzzle is already complete"@)),
        s.progress.allows_show_answer() && s.next_move < s.solution.len() ==> (show_answer(s).1
            is Err <==> answer_steps(
            if s.progress == Progress::Incorrect {
                s.retry_position->0
            } else {
                s.position
            },
            s.solution.subrange(s.next_move as int, s.solution.len() as int),
            s.next_move + 1,
        ) is Err),
{
}

/// Playing moves for the answer gives one step per move, in order, with
/// consecutive plies.
pub proof fn lemma_answer_steps_follow_the_moves(fen: Seq<char>, moves: Seq<ChessMove>, ply: nat)
    requires
        answer_steps(fen, moves, ply) is Ok,
    ensures
        answer_steps(fen, moves, ply)->Ok_0.0.len() == moves.len(),
        forall|k: int|
            0 <= k < moves.len() ==> (#[trigger] answer_steps(fen, moves, ply)->Ok_0.0[k]).played_move.chess_move
                == moves[k] && answer_steps(fen, moves, ply)->Ok_0.0[k].played_move.ply == ply + k,
    decreases moves.len(),
{
    if moves.len() > 0 {
        let next = play_in(fen, moves[0])->Ok_0;
        lemma_answer_steps_follow_the_moves(next, moves.drop_first(), ply + 1);
        let rest = answer_steps(next, moves.drop_first(), ply + 1)->Ok_0.0;
        let all = answer_steps(fen, moves, ply)->Ok_0.0;
        assert forall|k: int| 0 <= k < moves.len() implies (#[trigger] all[k]).played_move.chess_move
            == moves[k] && all[k].played_move.ply == ply + k by {
            if k > 0 {
                assert(all[k] == rest[k - 1]);
                assert(moves.drop_first()[k - 1] == moves[k]);
            }
        }
    }
}

/// Revealing the answer completes the puzzle as failed. It plays every
/// remaining move of the solution, in order, from the position before any
/// incorrect move, and leaves the board at the end of the solution.
pub proof fn law_the_answer_fails_the_puzzle(s: SessionView)
    requires
        s.wf(),
        show_answer(s).1 is Ok,
    ensures
        show_answer(s).0.progress == Progress::Complete(TerminalState::Failed),
        show_answer(s).0.next_move == s.solution.len(),
        show_answer(s).0.retry_position is None,
        show_answer(s).0.made_mistake == s.made_mistake,
        show_answer(s).1->Ok_0.len() == s.solution.len() - s.next_move,
        forall|k: int|
            0 <= k < show_answer(s).1->Ok_0.len() ==> (#[trigger] show_answer(s).1->Ok_0[k]).played_move.chess_move
                == s.solution[s.next_move + k] && show_answer(s).1->Ok_0[k].played_move.ply
                == s.next_move + 1 + k,
        answer_steps(
            if s.progress == Progress::Incorrect {
                s.retry_position->0
            } else {
                s.position
            },
            s.solution.subrange(s.next_move as int, s.solution.len() as int),
            s.next_move + 1,
        ) == Ok::<(Seq<AnswerStepView>, Seq<char>), Seq<char>>(
            (show_answer(s).1->Ok_0, show_answer(s).0.position),
        ),
{
    let from = if s.progress == Progress::Incorrect {
        s.retry_position->0
    } else {
        s.position
    };
    let remaining = s.solution.subrange(s.next_move as int, s.solution.len() as int);
    lemma_answer_steps_follow_the_moves(from, remaining, s.next_move + 1);
}

/// The position in which answer step `k` is played: the starting position
/// `fen` for the first step, else the position that the step before left.
pub open spec fn position_before_step(fen: Seq<char>, steps: Seq<AnswerStepView>, k: int) -> Seq<char> {
    if k == 0 {
        fen
    } else {
        steps[k - 1].position
    }
}

/// Whether answer step `k` of `steps`, playing `moves[k]`, is played in
/// turn from `fen`: it is labelled with the side to move in the position
/// before the move, shows the move's notation in that position, and holds
/// the position the move leaves.
pub open spec fn played_in_turn(
    fen: Seq<char>,
    steps: Seq<AnswerStepView>,
    moves: Seq<ChessMove>,
    k: int,
) -> bool {
    let before = position_before_step(fen, steps, k);
    &&& steps[k].played_move.color == side_to_move_in(before)
    &&& algebraic_in(before, moves[k]) == Ok::<Seq<char>, Seq<char>>(steps[k].played_move.algebraic)
    &&& play_in(before, moves[k]) == Ok::<Seq<char>, Seq<char>>(steps[k].position)
}

/// The position from which the answer is played: the one before an
/// incorrect move while one stands, else the position on the board.
pub open spec fn answer_start(s: SessionView) -> Seq<char> {
    if s.progress == Progress::Incorrect {
        s.retry_position->0
    } else {
        s.position
    }
}

/// Playing moves for the answer plays each in turn, from the position the
/// step before left, and ends in the position the last step left.
pub proof fn lemma_answer_steps_are_played_in_turn(fen: Seq<char>, moves: Seq<ChessMove>, ply: nat)
    requires
        answer_steps(fen, moves, ply) is Ok,
    ensures
        forall|k: int|
            0 <= k < moves.len() ==> #[trigger] played_in_turn(
                fen,
                answer_steps(fen, moves, ply)->Ok_0.0,
                moves,
                k,
            ),
        answer_steps(fen, moves, ply)->Ok_0.1 == position_before_step(
            fen,
            answer_steps(fen, moves, ply)->Ok_0.0,
            moves.len() as int,
        ),
    decreases moves.len(),
{
    lemma_answer_steps_follow_the_moves(fen, moves, ply);
    if moves.len() > 0 {
        let next = play_in(fen, moves[0])->Ok_0;
        let tail = moves.drop_first();
        lemma_answer_steps_are_played_in_turn(next, tail, ply + 1);
        lemma_answer_steps_follow_the_moves(next, tail, ply + 1);
        let rest = answer_steps(next, tail, ply + 1)->Ok_0.0;
        let all = answer_steps(fen, moves, ply)->Ok_0.0;
        assert forall|k: int| 0 <= k < moves.len() implies #[trigger] played_in_turn(
            fen,
            all,
            moves,
            k,
        ) by {
            if k > 0 {
                assert(played_in_turn(next, rest, tail, k - 1));
                assert(all[k] == rest[k - 1]);
                assert(tail[k - 1] == moves[k]);
                assert(position_before_step(fen, all, k) == position_before_step(next, rest, k - 1));
            }
        }
        if moves.len() > 1 {
            assert(all[moves.len() - 1] == rest[moves.len() - 2]);
        }
    }
}

/// Revealing the answer labels each move with the side that plays it: the
/// side to move in the position before that move, which for the first move is
/// the position before any incorrect move. Each step shows the move's
/// notation in that position and the position it leaves, and the board ends
/// where the last step does.
pub proof fn law_answer_moves_are_labelled_by_their_player(s: SessionView)
    requires
        s.wf(),
        show_answer(s).1 is Ok,
    ensures
        forall|k: int|
            0 <= k < show_answer(s).1->Ok_0.len() ==> #[trigger] played_in_turn(
                answer_start(s),
                show_answer(s).1->Ok_0,
                s.solution.subrange(s.next_move as int, s.solution.len() as int),
                k,
            ),
        show_answer(s).1->Ok_0.len() > 0,
        show_answer(s).0.position == show_answer(s).1->Ok_0.last().position,
{
    let remaining = s.solution.subrange(s.next_move as int, s.solution.len() as int);
    lemma_answer_steps_are_played_in_turn(answer_start(s), remaining, s.next_move + 1);
    lemma_answer_steps_follow_the_moves(answer_start(s), remaining, s.next_move + 1);
}

/// A move of the player is the move the outcome reports; a correct move that
/// does not end the puzzle is answered by the next move of the solution,
/// played by the side to move after the player's move, one ply later, and
/// the session then remembers that reply as the opponent's last move.
pub proof fn law_the_reply_is_the_next_solution_move(s: SessionView, m: ChessMove)
    requires
        s.wf(),
    ensures
        play(s, m).1 matches Ok(MoveOutcomeView::Incorrect { user_move }) ==> {
            &&& user_move.chess_move == m
            &&& user_move.color == side_to_move_in(s.position)
            &&& user_move.ply == s.next_move + 1
            &&& !(s.next_move < s.solution.len() && s.solution[s.next_move as int] == m)
            &&& play(s, m).0.position == play_in(s.position, m)->Ok_0
            &&& play(s, m).0.retry_position == Some(s.position)
            &&& play(s, m).0.next_move == s.next_move
            &&& play(s, m).0.last_opponent_move == s.last_opponent_move
        },
        play(s, m).1 matches Ok(MoveOutcomeView::Correct { user_move, opponent_move }) ==> {
            &&& user_move.chess_move == m
            &&& user_move.color == side_to_move_in(s.position)
            &&& user_move.ply == s.next_move + 1
            &&& s.next_move < s.solution.len()
            &&& m == s.solution[s.next_move as int]
            &&& (opponent_move is None <==> s.next_move + 1 == s.solution.len())
            &&& (opponent_move matches Some(reply) ==> {
                &&& s.next_move + 1 < s.solution.len()
                &&& reply.chess_move == s.solution[s.next_move + 1int]
                &&& play(s, m).0.last_opponent_move == reply.chess_move
                &&& play(s, m).0.next_move == s.next_move + 2
                &&& reply.ply == user_move.ply + 1
                &&& reply.color == side_to_move_in(play_in(s.position, m)->Ok_0)
                &&& play(s, m).0.position == play_in(play_in(s.position, m)->Ok_0, reply.chess_move)->Ok_0
            })
        },
{
}

/// The answer steps found so far followed by those still to come.
pub open spec fn after_steps(
    done: Seq<AnswerStepView>,
    rest: Result<(Seq<AnswerStepView>, Seq<char>), Seq<char>>,
) -> Result<(Seq<AnswerStepView>, Seq<char>), Seq<char>> {
    match rest {
        Ok((steps, last)) => Ok((done + steps, last)),
        Err(message) => Err(message),
    }
}

impl PuzzleSession {
    /// Starts a puzzle: plays the setup move in the initial position and
    /// waits for the player's first move.
    pub fn new(initial_position: Position, setup_move: ChessMove, solution: Vec<ChessMove>) -> (r:
        Result<PuzzleSession, SessionError>)
        requires
            solution@.len() < usize::MAX,
        ensures
            match start(initial_position@, setup_move, solution@) {
                Ok(v) => r matches Ok(session) && session@ == v,
                Err(message) => r matches Err(e) && e@ == message,
            },
            r matches Ok(session) ==> session@.wf(),
            r matches Ok(session) ==> session@.player_turn(side_to_move_in(session@.position)),
            r matches Ok(session) ==> session@.setup_move.color != side_to_move_in(
                session@.position,
            ),
    {
        if solution.len() == 0 || solution.len() % 2 == 0 {
            return Err(
                SessionError(
                    String::from_str("a puzzle solution must contain an odd number of moves"),
                ),
            );
        }
        let mut initial_position = initial_position;
        let color = initial_position.side_to_move();
        let algebraic = match initial_position.algebraic(setup_move) {
            Ok(algebraic) => algebraic,
            Err(error) => {
                return Err(SessionError(joined("could not format setup move: ", error.message())));
            },
        };
        let setup_move = NotatedMove { chess_move: setup_move, color, algebraic, ply: 0 };
        match initial_position.apply_move(setup_move.chess_move) {
            Ok(()) => {},
            Err(error) => {
                return Err(SessionError(joined("could not apply setup move: ", error.message())));
            },
        }
        Ok(
            PuzzleSession {
                position: initial_position,
                solution,
                next_move: 0,
                made_mistake: false,
                progress: Progress::InProgress,
                retry_position: None,
                last_opponent_move: setup_move.chess_move,
                setup_move,
            },
        )
    }

    /// The position on the board.
    pub fn position(&self) -> (r: &Position)
        ensures
            r@ == self@.position,
    {
        &self.position
    }

    /// Where the player stands.
    pub fn progress(&self) -> (r: Progress)
        ensures
            r == self@.progress,
    {
        self.progress
    }

    /// The opponent's last move (the setup move until the opponent replies).
    pub fn last_opponent_move(&self) -> (r: ChessMove)
        ensures
            r == self@.last_opponent_move,
    {
        self.last_opponent_move
    }

    /// The setup move with its notation.
    pub fn setup_move(&self) -> (r: &NotatedMove)
        ensures
            r@ == self@.setup_move,
    {
        &self.setup_move
    }

    /// The number of plies in the puzzle, the setup move included.
    pub fn total_plies(&self) -> (r: usize)
        requires
            self@.wf(),
        ensures
            r == self@.solution.len() + 1,
    {
        self.solution.len() + 1
    }

    /// Plays the player's move: an incorrect one is kept on the board until a
    /// retry; a correct one is answered with the opponent's reply from the
    /// solution, or completes the puzzle.
    pub fn play_user_move(&mut self, user_move: ChessMove) -> (r: Result<MoveOutcome, SessionError>)
        requires
            old(self)@.wf(),
        ensures
            final(self)@ == play(old(self)@, user_move).0,
            result_view(r) == play(old(self)@, user_move).1,
            final(self)@.wf(),
            forall|player: Color|
                old(self)@.player_turn(player) ==> #[trigger] keeps_turns(
                    old(self)@,
                    play(old(self)@, user_move),
                    player,
                ),
    {
        if self.progress != Progress::InProgress {
            return Err(SessionError(String::from_str("the puzzle is not accepting a user move")));
        }
        let position_before_move = self.position.copy();
        let color = self.position.side_to_move();
        let algebraic = match self.position.algebraic(user_move) {
            Ok(algebraic) => algebraic,
            Err(error) => {
                return Err(SessionError(joined("could not format user move: ", error.message())));
            },
        };
        let user_move = NotatedMove {
            chess_move: user_move,
            color,
            algebraic,
            ply: self.next_move + 1,
        };
        match self.position.apply_move(user_move.chess_move) {
            Ok(()) => {},
            Err(error) => {
                return Err(SessionError(joined("could not apply user move: ", error.message())));
            },
        }
        if !(self.next_move < self.solution.len() && self.solution[self.next_move]
            == user_move.chess_move) {
            self.made_mistake = true;
            self.progress = Progress::Incorrect;
            self.retry_position = Some(position_before_move);
            return Ok(MoveOutcome::Incorrect { user_move });
        }
        self.next_move = self.next_move + 1;
        if self.next_move == self.solution.len() {
            self.progress = Progress::Complete(
                if self.made_mistake {
                    TerminalState::SucceededAfterRetry
                } else {
                    TerminalState::Succeeded
                },
            );
            return Ok(MoveOutcome::Correct { user_move, opponent_move: None });
        }
        let opponent_chess_move = self.solution[self.next_move];
        let color = self.position.side_to_move();
        let algebraic = match self.position.algebraic(opponent_chess_move) {
            Ok(algebraic) => algebraic,
            Err(error) => {
                return Err(
                    SessionError(joined("could not format opponent move: ", error.message())),
                );
            },
        };
        let opponent_move = NotatedMove {
            chess_move: opponent_chess_move,
            color,
            algebraic,
            ply: self.next_move + 1,
        };
        match self.position.apply_move(opponent_move.chess_move) {
            Ok(()) => {},
            Err(error) => {
                return Err(
                    SessionError(joined("could not apply opponent move: ", error.message())),
                );
            },
        }
        self.next_move = self.next_move + 1;
        self.last_opponent_move = opponent_move.chess_move;
        Ok(MoveOutcome::Correct { user_move, opponent_move: Some(opponent_move) })
    }

    /// Takes back an incorrect move; the mistake still counts for the result.
    pub fn retry(&mut self) -> (r: bool)
        requires
            old(self)@.wf(),
        ensures
            (final(self)@, r) == retry(old(self)@),
            final(self)@.wf(),
            forall|player: Color|
                old(self)@.player_turn(player) ==> #[trigger] final(self)@.player_turn(player),
    {
        if self.progress != Progress::Incorrect {
            return false;
        }
        let position = match self.retry_position.take() {
            Some(position) => position,
            None => {
                return false;
            },
        };
        self.position = position;
        self.progress = Progress::InProgress;
        true
    }

    /// Reveals the rest of the solution: plays it from the position before
    /// any incorrect move and completes the puzzle as failed.
    pub fn show_answer(&mut self) -> (r: Result<Vec<AnswerStep>, SessionError>)
        requires
            old(self)@.wf(),
        ensures
            final(self)@ == show_answer(old(self)@).0,
            show_answer(old(self)@).1 == match r {
                Ok(steps) => Ok(steps_view(steps@)),
                Err(e) => Err::<Seq<AnswerStepView>, Seq<char>>(e@),
            },
            final(self)@.wf(),
            forall|player: Color|
                old(self)@.player_turn(player) ==> #[trigger] final(self)@.player_turn(player),
    {
        if !self.progress.show_answer_enabled() {
            return Err(SessionError(String::from_str("the puzzle is already complete")));
        }
        let mut answer_position = if self.progress == Progress::Incorrect {
            match &self.retry_position {
                Some(position) => position.copy(),
                None => {
                    return Err(SessionError(String::from_str("the retry position is unavailable")));
                },
            }
        } else {
            self.position.copy()
        };
        if self.next_move >= self.solution.len() {
            return Err(SessionError(String::from_str("the puzzle has no remaining answer moves")));
        }
        let ghost start = answer_position@;
        let ghost remaining = self@.solution.subrange(
            self.next_move as int,
            self.solution.len() as int,
        );
        let mut steps: Vec<AnswerStep> = Vec::new();
        let mut i: usize = self.next_move;
        assert(self@.solution.subrange(i as int, self.solution.len() as int) == remaining);
        while i < self.solution.len()
            invariant
                self@ == old(self)@,
                self@.wf(),
                self@.progress.allows_show_answer(),
                self@.next_move < self@.solution.len(),
                self@.progress == Progress::Incorrect ==> self@.retry_position == Some(start),
                self@.progress != Progress::Incorrect ==> self@.position == start,
                self.next_move <= i <= self.solution@.len(),
                remaining == self@.solution.subrange(
                    self.next_move as int,
                    self.solution@.len() as int,
                ),
                answer_steps(start, remaining, (self.next_move + 1) as nat) == after_steps(
                    steps_view(steps@),
                    answer_steps(
                        answer_position@,
                        self@.solution.subrange(i as int, self.solution@.len() as int),
                        (i + 1) as nat,
                    ),
                ),
            decreases self.solution.len() - i,
        {
            let answer_move = self.solution[i];
            let ghost rest = self@.solution.subrange(i as int, self.solution@.len() as int);
            assert(rest[0] == answer_move);
            assert(rest.drop_first() == self@.solution.subrange(
                i + 1,
                self.solution@.len() as int,
            ));
            let color = answer_position.side_to_move();
            let algebraic = match answer_position.algebraic(answer_move) {
                Ok(algebraic) => algebraic,
                Err(error) => {
                    return Err(
                        SessionError(joined("could not format answer move: ", error.message())),
                    );
                },
            };
            let played_move = NotatedMove { chess_move: answer_move, color, algebraic, ply: i + 1 };
            let ghost before = answer_position@;
            match answer_position.apply_move(answer_move) {
                Ok(()) => {},
                Err(error) => {
                    return Err(
                        SessionError(joined("could not apply answer move: ", error.message())),
                    );
                },
            }
            let step = AnswerStep { played_move, position: answer_position.copy() };
            let ghost done = steps_view(steps@);
            steps.push(step);
            proof {
                assert(steps_view(steps@) == done + seq![step@]);
                match answer_steps(
                    answer_position@,
                    self@.solution.subrange(i + 1, self.solution@.len() as int),
                    (i + 2) as nat,
                ) {
                    Ok((later, last)) => {
                        assert(done + (seq![step@] + later) == (done + seq![step@]) + later);
                    },
                    Err(_) => {},
                }
            }
            i = i + 1;
        }
        proof {
            assert(self@.solution.subrange(i as int, self.solution@.len() as int).len() == 0);
            assert(steps_view(steps@) + Seq::<AnswerStepView>::empty() == steps_view(steps@));
        }
        self.position = answer_position;
        self.next_move = self.solution.len();
        self.progress = Progress::Complete(TerminalState::Failed);
        self.retry_position = None;
        Ok(steps)
    }
}

} // verus!
