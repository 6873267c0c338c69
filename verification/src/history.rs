//! Player ratings: the rating a result stands for, and how the player's
//! rating follows the most recent results.
use vstd::prelude::*;
use vstd::string::*;

use crate::puzzle::session::TerminalState;

verus! {

/// How many results the player's rating averages over.
pub const PLAYER_RATING_WINDOW: usize = 20;

/// The rating of a player without results; it also pads a short history.
pub const INITIAL_PLAYER_RATING: i32 = 400;

/// The largest change of the player's rating that one result can make.
pub const MAXIMUM_RATING_CHANGE: i32 = 100;

/// The player's rating after a result, and its change from before.
#[derive(Clone, Copy, Debug, PartialEq, Eq, Structural)]
pub struct RatingUpdate {
    pub rating: i32,
    pub change: i32,
}

/// A completed attempt, as the history shows it.
#[derive(Clone, Debug)]
pub struct HistoryEntry {
    pub completed_at: String,
    pub puzzle_id: String,
    pub rating: u16,
    pub result: &'static str,
    pub player_rating: i32,
}

/// The rating that a result on a puzzle stands for: the puzzle's rating
/// raised by its deviation for a clean success, lowered by it otherwise.
pub open spec fn result_rating_of(rating: u16, rating_deviation: u16, result: TerminalState) -> int {
    match result {
        TerminalState::Succeeded => rating + rating_deviation,
        _ => rating - rating_deviation,
    }
}

/// The rating that a result on a puzzle stands for.
pub fn result_rating(rating: u16, rating_deviation: u16, result: TerminalState) -> (r: i32)
    ensures
        r == result_rating_of(rating, rating_deviation, result),
{
    match result {
        TerminalState::Succeeded => rating as i32 + rating_deviation as i32,
        _ => rating as i32 - rating_deviation as i32,
    }
}

/// The player's current rating: the one stored with the latest result, or
/// the initial rating for a player without results.
pub open spec fn current_rating_of(latest: Option<i32>) -> i32 {
    match latest {
        Some(rating) => rating,
        None => INITIAL_PLAYER_RATING,
    }
}

/// The player's current rating, from the rating stored with the latest result.
pub fn current_player_rating(latest: Option<i32>) -> (r: i32)
    ensures
        r == current_rating_of(latest),
{
    match latest {
        Some(rating) => rating,
        None => INITIAL_PLAYER_RATING,
    }
}

/// The sum of a sequence of ratings.
pub open spec fn sum_of(ratings: Seq<i32>) -> int
    decreases ratings.len(),
{
    if ratings.len() == 0 {
        0
    } else {
        sum_of(ratings.drop_last()) + ratings.last()
    }
}

/// The earlier results that count with a new one: the most recent 19.
pub open spec fn counted(previous: Seq<i32>) -> Seq<i32> {
    if previous.len() > PLAYER_RATING_WINDOW - 1 {
        previous.take(PLAYER_RATING_WINDOW - 1)
    } else {
        previous
    }
}

/// The sum over the rating window: the counted earlier results, the new
/// result, and the initial rating for each place still empty.
pub open spec fn window_sum(previous: Seq<i32>, current: i32) -> int {
    sum_of(counted(previous)) + current + (PLAYER_RATING_WINDOW - (counted(previous).len() + 1))
        * INITIAL_PLAYER_RATING
}

/// `total / 20` rounded to the nearest integer, halves away from zero.
pub open spec fn rounded_average(total: int) -> int {
    if total >= 0 {
        (total + 10) / 20
    } else {
        -((-total + 10) / 20)
    }
}

/// The player's rating after a result with rating `current`, given the
/// earlier results' ratings (most recent first) and the rating before: the
/// rounded average over the window, moved at least one point in the
/// direction of the result and at most 100 points.
pub open spec fn next_rating_of(
    previous: Seq<i32>,
    previous_rating: i32,
    current: i32,
    result: TerminalState,
) -> int {
    let average = rounded_average(window_sum(previous, current));
    match result {
        TerminalState::Succeeded => {
            let raised = if average > previous_rating + 1 {
                average
            } else {
                previous_rating + 1
            };
            if raised < previous_rating + MAXIMUM_RATING_CHANGE {
                raised
            } else {
                previous_rating + MAXIMUM_RATING_CHANGE
            }
        },
        _ => {
            let lowered = if average < previous_rating - 1 {
                average
            } else {
                previous_rating - 1
            };
            if lowered > previous_rating - MAXIMUM_RATING_CHANGE {
                lowered
            } else {
                previous_rating - MAXIMUM_RATING_CHANGE
            }
        },
    }
}

/// The rating a player can have before a result without the rating after
/// it leaving the range of `i32`.
pub open spec fn rating_can_move(previous_rating: i32, result: TerminalState) -> bool {
    match result {
        TerminalState::Succeeded => previous_rating < i32::MAX,
        _ => previous_rating > i32::MIN,
    }
}

fn window_total(previous: &[i32], current: i32) -> (r: i64)
    ensures
        r == window_sum(previous@, current),
        -0x8000_0000 * 20 <= r <= 0x7fff_ffff * 20,
{
    let count: usize = if previous.len() > PLAYER_RATING_WINDOW - 1 {
        PLAYER_RATING_WINDOW - 1
    } else {
        previous.len()
    };
    let ghost used = counted(previous@);
    assert(used == previous@.take(count as int));
    let mut total: i64 = 0;
    let mut i: usize = 0;
    while i < count
        invariant
            count <= PLAYER_RATING_WINDOW - 1,
            count <= previous@.len(),
            used == previous@.take(count as int),
            i <= count,
            total == sum_of(previous@.take(i as int)),
            -0x8000_0000 * i <= total <= 0x7fff_ffff * i,
        decreases count - i,
    {
        assert(previous@.take(i + 1).drop_last() == previous@.take(i as int));
        total = total + previous[i] as i64;
        i = i + 1;
    }
    let padding: i64 = ((PLAYER_RATING_WINDOW - (count + 1)) as i64) * 400;
    assert(0 <= padding <= 400 * (19 - count));
    assert(padding <= 0x7fff_ffff * (19 - count));
    total + current as i64 + padding
}

/// The player's rating after a result with rating `current_result_rating`,
/// given the ratings of the earlier results, most recent first (only the
/// most recent 19 count), and the player's rating before it.
pub fn next_player_rating(
    previous_results: &[i32],
    previous_rating: i32,
    current_result_rating: i32,
    result: TerminalState,
) -> (r: i32)
    requires
        rating_can_move(previous_rating, result),
    ensures
        r == next_rating_of(previous_results@, previous_rating, current_result_rating, result),
{
    let total = window_total(previous_results, current_result_rating);
    let average: i64 = if total >= 0 {
        (total + 10) / 20
    } else {
        -((-total + 10) / 20)
    };
    let previous = previous_rating as i64;
    assert(average == rounded_average(window_sum(previous_results@, current_result_rating)));
    assert(i32::MIN <= average <= i32::MAX) by (nonlinear_arith)
        requires
            -0x8000_0000 * 20 <= total <= 0x7fff_ffff * 20,
            total >= 0 ==> average == (total + 10) / 20,
            total < 0 ==> average == -((-total + 10) / 20),
    ;
    let next: i64 = match result {
        TerminalState::Succeeded => {
            let raised = if average > previous + 1 {
                average
            } else {
                previous + 1
            };
            if raised < previous + MAXIMUM_RATING_CHANGE as i64 {
                raised
            } else {
                previous + MAXIMUM_RATING_CHANGE as i64
            }
        },
        _ => {
            let lowered = if average < previous - 1 {
                average
            } else {
                previous - 1
            };
            if lowered > previous - MAXIMUM_RATING_CHANGE as i64 {
                lowered
            } else {
                previous - MAXIMUM_RATING_CHANGE as i64
            }
        },
    };
    assert(i32::MIN <= next <= i32::MAX);
    next as i32
}

/// Records a result: the player's new rating from the earlier results'
/// ratings (most recent first) and the rating before, and the change.
pub fn rate_result(
    previous_results: &[i32],
    previous_rating: i32,
    rating: u16,
    rating_deviation: u16,
    result: TerminalState,
) -> (r: RatingUpdate)
    requires
        rating_can_move(previous_rating, result),
    ensures
        r.rating == next_rating_of(
            previous_results@,
            previous_rating,
            result_rating_of(rating, rating_deviation, result) as i32,
            result,
        ),
        r.change == r.rating - previous_rating,
{
    let current = result_rating(rating, rating_deviation, result);
    let next = next_player_rating(previous_results, previous_rating, current, result);
    RatingUpdate { rating: next, change: next - previous_rating }
}

/// A clean success raises the player's rating and any other result lowers
/// it, by at least one point and at most `MAXIMUM_RATING_CHANGE`.
pub proof fn law_rating_moves_in_the_direction_of_the_result(
    previous: Seq<i32>,
    previous_rating: i32,
    current: i32,
    result: TerminalState,
)
    ensures
        result == TerminalState::Succeeded ==> previous_rating + 1 <= next_rating_of(
            previous,
            previous_rating,
            current,
            result,
        ) <= previous_rating + MAXIMUM_RATING_CHANGE,
        result != TerminalState::Succeeded ==> previous_rating - MAXIMUM_RATING_CHANGE
            <= next_rating_of(previous, previous_rating, current, result) <= previous_rating - 1,
{
}

/// Only the most recent results count: two histories that agree on their
/// most recent `PLAYER_RATING_WINDOW - 1` results give the same rating.
pub proof fn law_only_the_most_recent_results_count(
    previous: Seq<i32>,
    other: Seq<i32>,
    previous_rating: i32,
    current: i32,
    result: TerminalState,
)
    requires
        previous.len() >= PLAYER_RATING_WINDOW - 1,
        other.len() >= PLAYER_RATING_WINDOW - 1,
        previous.take(PLAYER_RATING_WINDOW - 1) == other.take(PLAYER_RATING_WINDOW - 1),
    ensures
        next_rating_of(previous, previous_rating, current, result) == next_rating_of(
            other,
            previous_rating,
            current,
            result,
        ),
{
    if previous.len() == PLAYER_RATING_WINDOW - 1 {
        assert(previous.take(PLAYER_RATING_WINDOW - 1) =~= previous);
    }
    if other.len() == PLAYER_RATING_WINDOW - 1 {
        assert(other.take(PLAYER_RATING_WINDOW - 1) =~= other);
    }
    assert(counted(previous) == counted(other));
}

/// A short history is padded with the initial rating: a player without
/// results averages the new result with 19 initial ratings.
pub proof fn law_a_short_history_is_padded(current: i32)
    ensures
        window_sum(Seq::empty(), current) == current + (PLAYER_RATING_WINDOW - 1)
            * INITIAL_PLAYER_RATING,
{
}

/// The key under which a result is stored.
pub open spec fn result_key_of(result: TerminalState) -> Seq<char> {
    match result {
        TerminalState::Succeeded => "succeeded"@,
        TerminalState::SucceededAfterRetry => "succeeded_after_retry"@,
        TerminalState::Failed => "failed"@,
    }
}

/// The key under which a result is stored.
pub fn result_key(result: TerminalState) -> (r: &'static str)
    ensures
        r@ == result_key_of(result),
{
    match result {
        TerminalState::Succeeded => "succeeded",
        TerminalState::SucceededAfterRetry => "succeeded_after_retry",
        TerminalState::Failed => "failed",
    }
}

/// The label shown for a stored result key.
pub open spec fn result_label_of(key: Seq<char>) -> Seq<char> {
    if key == "succeeded"@ {
        "Succeeded"@
    } else if key == "succeeded_after_retry"@ {
        "Succeeded after Retry"@
    } else if key == "failed"@ {
        "Failed"@
    } else {
        "Unknown"@
    }
}

/// The label shown for a stored result key.
pub fn result_label(key: &str) -> (r: &'static str)
    ensures
        r@ == result_label_of(key@),
{
    let key = String::from_str(key);
    if key == String::from_str("succeeded") {
        "Succeeded"
    } else if key == String::from_str("succeeded_after_retry") {
        "Succeeded after Retry"
    } else if key == String::from_str("failed") {
        "Failed"
    } else {
        "Unknown"
    }
}

} // verus!
