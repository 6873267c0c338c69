# Chess Puzzles

An offline trainer for tactical chess puzzles. The player is given positions
near their rating, plays the moves of the solution line against automatic
replies, may retry after a mistake or reveal the answer, and keeps a local
history of results and ratings.

## Layout

- `src/` is the library, verified with Verus:
  - `puzzle/model.rs` — squares, moves and positions; chess rules come from
    `shakmaty`, whose results the contracts name or, for UCI text, state.
  - `puzzle/session.rs` — the puzzle session state machine, stated as spec
    functions over a session value, with its laws.
  - `puzzle/repository.rs` — choosing the next puzzle, reading catalogue
    records, decompressing the catalogue with `zstd`, and deciding when the
    unpacked copy is current.
  - `history.rs` — the rating of a result and the player's rating.
  - `move_list.rs`, `board.rs`, `feedback.rs` — what the move list, the board
    and the progress area show, what a click on the board does, and which
    action's result is recorded.
  - `text.rs` — joining strings and writing integers in decimal.
- `app/` is the GTK/libadwaita application: widgets, SQLite storage of the
  history, and the files of the catalogue and its unpacked copy.
- `tests/` holds the tests of the library.
