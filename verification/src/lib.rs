//! Offline chess puzzle training: chess rules through shakmaty, the puzzle
//! session state machine, player ratings, puzzle selection and the
//! board and move-list presentation models.

pub mod puzzle;
pub mod text;
pub mod history;
pub mod move_list;
pub mod board;
pub mod feedback;
