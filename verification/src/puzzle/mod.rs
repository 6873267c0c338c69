pub mod model;
pub mod repository;
pub mod session;

pub use model::{ChessMove, Color, FenError, MoveError, Piece, Position, Role, Square};
pub use repository::{puzzle_from_record, select_best, LoadError, Puzzle, PuzzleCandidate};
pub use session::{
    AnswerStep, MoveOutcome, NotatedMove, Progress, PuzzleSession, SessionError, TerminalState,
};
