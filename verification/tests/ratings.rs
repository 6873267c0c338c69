use gnome_chess_puzzles::history::{
    current_player_rating, next_player_rating, rate_result, result_key, result_label,
    result_rating, RatingUpdate, INITIAL_PLAYER_RATING,
};
use gnome_chess_puzzles::puzzle::TerminalState;

/// The stored history of a player, most recent result first, with the
/// player's rating after each result.
struct Log {
    results: Vec<i32>,
    ratings: Vec<i32>,
}

impl Log {
    fn new() -> Self {
        Log {
            results: Vec::new(),
            ratings: Vec::new(),
        }
    }

    fn insert(&mut self, rating: u16, deviation: u16, result: TerminalState) -> i32 {
        let current = result_rating(rating, deviation, result);
        let previous_rating = current_player_rating(self.ratings.first().copied());
        let recent: Vec<i32> = self.results.iter().take(19).copied().collect();
        let next = next_player_rating(&recent, previous_rating, current, result);
        self.results.insert(0, current);
        self.ratings.insert(0, next);
        next
    }
}

#[test]
fn player_rating_uses_only_the_most_recent_twenty_results() {
    let mut log = Log::new();
    for _ in 0..20 {
        log.insert(600, 0, TerminalState::Succeeded);
    }

    let rating = log.insert(1000, 0, TerminalState::Succeeded);

    assert_eq!(rating, 620);
}

#[test]
fn rating_update_reports_the_change_from_the_previous_rating() {
    let update = rate_result(&[], current_player_rating(None), 1200, 100, TerminalState::Succeeded);

    assert_eq!(
        update,
        RatingUpdate {
            rating: 445,
            change: 45,
        }
    );
}

#[test]
fn rating_always_moves_in_the_direction_of_the_result() {
    let mut log = Log::new();

    assert_eq!(log.insert(0, 0, TerminalState::Failed), 380);
    assert_eq!(log.insert(0, 0, TerminalState::Succeeded), 381);
    assert_eq!(
        log.insert(2000, 0, TerminalState::SucceededAfterRetry),
        380
    );
}

#[test]
fn ratings_of_consecutive_results() {
    let mut log = Log::new();
    assert_eq!(log.insert(1200, 100, TerminalState::Succeeded), 445);
    assert_eq!(log.insert(1400, 100, TerminalState::SucceededAfterRetry), 444);
    assert_eq!(log.insert(1600, 100, TerminalState::Failed), 443);
}

#[test]
fn a_single_result_moves_the_rating_at_most_one_hundred_points() {
    let up = rate_result(&[], 400, 3000, 500, TerminalState::Succeeded);
    assert_eq!(up, RatingUpdate { rating: 500, change: 100 });
    let down = rate_result(&[], 2000, 0, 0, TerminalState::Failed);
    assert_eq!(down, RatingUpdate { rating: 1900, change: -100 });
}

#[test]
fn only_nineteen_earlier_results_count() {
    let mut many = vec![600; 19];
    many.push(-30000);
    let few = vec![600; 19];
    assert_eq!(
        next_player_rating(&many, 600, 1000, TerminalState::Succeeded),
        next_player_rating(&few, 600, 1000, TerminalState::Succeeded)
    );
}

#[test]
fn averages_round_half_away_from_zero() {
    // 19 * 400 + 410 = 8010, 8010 / 20 = 400.5
    assert_eq!(next_player_rating(&[], 350, 410, TerminalState::Succeeded), 401);
    // (-190) * 20 + ... : all results -190 and the new one -200, sum -3810, -190.5
    let previous = vec![-190; 19];
    assert_eq!(
        next_player_rating(&previous, 0, -200, TerminalState::Failed),
        -100
    );
    let previous = vec![-190; 19];
    assert_eq!(
        next_player_rating(&previous, -150, -200, TerminalState::Failed),
        -191
    );
}

#[test]
fn results_have_keys_labels_and_ratings() {
    assert_eq!(result_rating(1200, 100, TerminalState::Succeeded), 1300);
    assert_eq!(result_rating(1200, 100, TerminalState::Failed), 1100);
    assert_eq!(result_rating(50, 100, TerminalState::SucceededAfterRetry), -50);
    assert_eq!(result_key(TerminalState::SucceededAfterRetry), "succeeded_after_retry");
    assert_eq!(result_label("succeeded"), "Succeeded");
    assert_eq!(result_label("succeeded_after_retry"), "Succeeded after Retry");
    assert_eq!(result_label("failed"), "Failed");
    assert_eq!(result_label("other"), "Unknown");
    assert_eq!(current_player_rating(None), INITIAL_PLAYER_RATING);
    assert_eq!(current_player_rating(Some(512)), 512);
}
