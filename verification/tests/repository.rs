use gnome_chess_puzzles::puzzle::repository::{
    puzzle_from_record, select_best, select_next_puzzle, source_marker, split_words, unpack_catalogue,
    unpacked_copy_is_current,
};
use gnome_chess_puzzles::puzzle::{ChessMove, PuzzleCandidate};

fn candidate(id: &str, rating: i64, rating_deviation: i64) -> PuzzleCandidate {
    PuzzleCandidate {
        id: id.to_owned(),
        rating,
        rating_deviation,
    }
}

fn chosen(candidates: &[PuzzleCandidate], player_rating: i32, completed: &[String]) -> Option<String> {
    select_best(candidates, player_rating, completed).map(|index| candidates[index].id.clone())
}

#[test]
fn selects_nearest_uncompleted_rating_then_lowest_deviation() {
    let candidates = [
        candidate("b", 2, 20),
        candidate("a", 1, 10),
        candidate("c", 3, 30),
    ];

    let mut completed: Vec<String> = Vec::new();
    assert_eq!(chosen(&candidates, 2, &completed).unwrap(), "b");

    completed.push("b".to_owned());
    assert_eq!(chosen(&candidates, 2, &completed).unwrap(), "a");

    completed.extend(["a".to_owned(), "c".to_owned()]);
    assert!(chosen(&candidates, 2, &completed).is_none());
}

#[test]
fn rating_deviation_breaks_equal_rating_distance_ties() {
    let candidates = [
        candidate("higher-deviation", 500, 40),
        candidate("lower-deviation", 700, 20),
    ];

    assert_eq!(chosen(&candidates, 600, &[]).unwrap(), "lower-deviation");
}

#[test]
fn the_id_breaks_remaining_ties() {
    let candidates = [candidate("b", 500, 40), candidate("ab", 700, 40), candidate("a", 500, 40)];
    assert_eq!(chosen(&candidates, 600, &[]).unwrap(), "a");
    assert_eq!(chosen(&candidates, 600, &["a".to_owned()]).unwrap(), "ab");
    assert!(chosen(&[], 600, &[]).is_none());
}

#[test]
fn words_are_split_at_any_white_space() {
    assert_eq!(split_words("  e2e4\te7e5\n g1f3 "), vec!["e2e4", "e7e5", "g1f3"]);
    assert_eq!(split_words("a\u{3000}b\u{a0}c"), vec!["a", "b", "c"]);
    assert!(split_words(" \t ").is_empty());
}

const FEN: &str = "rnbqkbnr/pppppppp/8/8/8/8/PPPPPPPP/RNBQKBNR b KQkq - 0 1";

#[test]
fn a_record_holds_the_setup_move_and_the_solution() {
    let puzzle = puzzle_from_record("x1".to_owned(), FEN, "e7e5 g1f3 b8c6 d2d4", 1500, 80).unwrap();
    assert_eq!(puzzle.id, "x1");
    assert_eq!(puzzle.rating, 1500);
    assert_eq!(puzzle.rating_deviation, 80);
    assert_eq!(puzzle.setup_move, ChessMove::from_uci("e7e5").unwrap());
    assert_eq!(puzzle.solution.len(), 3);
    assert_eq!(puzzle.solution[2], ChessMove::from_uci("d2d4").unwrap());
    assert_eq!(puzzle.initial_fen.fen(), FEN);
}

#[test]
fn bad_records_are_reported() {
    let message = |id: &str, fen: &str, moves: &str, rating: i64, deviation: i64| {
        puzzle_from_record(id.to_owned(), fen, moves, rating, deviation)
            .err()
            .unwrap()
            .message()
            .to_owned()
    };
    assert_eq!(message("p", FEN, "e7e5 g1f3", -1, 0), "puzzle p has an invalid rating: -1");
    assert_eq!(
        message("p", FEN, "e7e5 g1f3", 10, 70000),
        "puzzle p has an invalid rating deviation: 70000"
    );
    assert!(message("p", "nonsense", "e7e5 g1f3", 10, 10).starts_with("puzzle p has an invalid FEN: invalid FEN: "));
    assert_eq!(message("p", FEN, "   ", 10, 10), "puzzle p has no setup move");
    assert_eq!(
        message("p", FEN, "e7e5 zz", 10, 10),
        "puzzle p has an invalid move zz: invalid UCI move: invalid uci"
    );
    assert_eq!(message("p", FEN, "e7e5", 10, 10), "puzzle p has no solution moves");
}

#[test]
fn the_unpacked_catalogue_is_reused_only_for_the_same_source() {
    let marker = source_marker(1234, 1_700_000_000_123_456_789);
    assert_eq!(marker, "1234:1700000000123456789");
    assert!(unpacked_copy_is_current(true, Some("1234:1700000000123456789"), &marker));
    assert!(!unpacked_copy_is_current(false, Some("1234:1700000000123456789"), &marker));
    assert!(!unpacked_copy_is_current(true, Some("1234:0"), &marker));
    assert!(!unpacked_copy_is_current(true, None, &marker));
    assert_eq!(source_marker(0, 0), "0:0");
}

#[test]
fn the_next_puzzle_is_never_the_one_on_screen() {
    let candidates = [
        candidate("near", 1000, 50),
        candidate("far", 1400, 50),
        candidate("done", 1000, 10),
    ];
    let completed = vec!["done".to_owned()];
    let near = "near".to_owned();
    let far = "far".to_owned();
    let pick = |current: Option<&String>| {
        select_next_puzzle(&candidates, 1000, &completed, current)
            .map(|index| candidates[index].id.clone())
    };
    assert_eq!(pick(None).unwrap(), "near");
    assert_eq!(pick(Some(&near)).unwrap(), "far");
    assert_eq!(pick(Some(&far)).unwrap(), "near");
    let only = [candidate("near", 1000, 50)];
    assert_eq!(select_next_puzzle(&only, 1000, &[], Some(&near)), None);
}

#[test]
fn the_catalogue_is_unpacked_from_its_zstd_frames() {
    let database = b"SQLite format 3\0 and the rest of the file".to_vec();
    let compressed = zstd::stream::encode_all(&database[..], 3).unwrap();
    assert_ne!(compressed, database);
    let unpacked = unpack_catalogue(&compressed, "data/puzzles.sqlite.zst").unwrap();
    assert_eq!(unpacked, database);

    let error = unpack_catalogue(b"not a zstd frame", "data/puzzles.sqlite.zst").unwrap_err();
    assert!(error
        .message()
        .starts_with("could not unpack data/puzzles.sqlite.zst: "));
    assert!(error.message().len() > "could not unpack data/puzzles.sqlite.zst: ".len());
}
