//! Choosing the next puzzle for the player and reading a puzzle record of
//! the catalogue.
use vstd::prelude::*;
use vstd::string::*;

use crate::puzzle::model::{fen_outcome, result_view, uci_outcome, ChessMove, Position};
use crate::text::{decimal, push_decimal, push_signed_decimal, signed_decimal};

verus! {

/// A catalogue puzzle as selection sees it.
#[derive(Clone, Debug)]
pub struct PuzzleCandidate {
    pub id: String,
    pub rating: i64,
    pub rating_deviation: i64,
}

/// A candidate as a value.
pub struct CandidateView {
    pub id: Seq<char>,
    pub rating: i64,
    pub rating_deviation: i64,
}

impl View for PuzzleCandidate {
    type V = CandidateView;

    open spec fn view(&self) -> CandidateView {
        CandidateView { id: self.id@, rating: self.rating, rating_deviation: self.rating_deviation }
    }
}

/// How far a puzzle's rating lies from the player's.
pub open spec fn rating_distance(rating: i64, player_rating: i32) -> int {
    if rating >= player_rating {
        rating - player_rating
    } else {
        player_rating - rating
    }
}

/// Whether text `a` comes no later than text `b`, comparing characters by
/// code point (for UTF-8 text the order of its bytes).
pub open spec fn text_le(a: Seq<char>, b: Seq<char>) -> bool
    decreases a.len(),
{
    if a.len() == 0 {
        true
    } else if b.len() == 0 {
        false
    } else if (a[0] as u32) != (b[0] as u32) {
        (a[0] as u32) < (b[0] as u32)
    } else {
        text_le(a.drop_first(), b.drop_first())
    }
}

/// Whether candidate `a` is preferred to or ties with `b`: nearer in rating
/// to the player, then of lower rating deviation, then of smaller id.
pub open spec fn preferred(a: CandidateView, b: CandidateView, player_rating: i32) -> bool {
    let (da, db) = (rating_distance(a.rating, player_rating), rating_distance(b.rating, player_rating));
    ||| da < db
    ||| da == db && a.rating_deviation < b.rating_deviation
    ||| da == db && a.rating_deviation == b.rating_deviation && text_le(a.id, b.id)
}

/// Whether the puzzle with id `id` is among `completed`.
pub open spec fn is_completed(id: Seq<char>, completed: Seq<String>) -> bool {
    exists|k: int| 0 <= k < completed.len() && (#[trigger] completed[k])@ == id
}

fn completed_contains(completed: &[String], id: &String) -> (r: bool)
    ensures
        r == is_completed(id@, completed@),
{
    let mut k: usize = 0;
    while k < completed.len()
        invariant
            k <= completed@.len(),
            forall|j: int| 0 <= j < k ==> (#[trigger] completed@[j])@ != id@,
        decreases completed.len() - k,
    {
        if completed[k] == *id {
            return true;
        }
        k = k + 1;
    }
    false
}

fn text_le_exec(a: &str, b: &str) -> (r: bool)
    ensures
        r == text_le(a@, b@),
{
    let a_len = a.unicode_len();
    let b_len = b.unicode_len();
    let mut i: usize = 0;
    assert(a@.skip(0) == a@ && b@.skip(0) == b@);
    while i < a_len
        invariant
            a_len == a@.len(),
            b_len == b@.len(),
            i <= a_len,
            i <= b_len,
            text_le(a@, b@) == text_le(a@.skip(i as int), b@.skip(i as int)),
        decreases a_len - i,
    {
        if i == b_len {
            return false;
        }
        let (x, y) = (a.get_char(i), b.get_char(i));
        assert(a@.skip(i as int)[0] == x && b@.skip(i as int)[0] == y);
        assert(a@.skip(i as int).drop_first() == a@.skip(i + 1));
        assert(b@.skip(i as int).drop_first() == b@.skip(i + 1));
        if (x as u32) != (y as u32) {
            return (x as u32) < (y as u32);
        }
        i = i + 1;
    }
    true
}

fn preferred_exec(a: &PuzzleCandidate, b: &PuzzleCandidate, player_rating: i32) -> (r: bool)
    ensures
        r == preferred(a@, b@, player_rating),
{
    let player = player_rating as i128;
    let da: i128 = if a.rating as i128 >= player {
        a.rating as i128 - player
    } else {
        player - a.rating as i128
    };
    let db: i128 = if b.rating as i128 >= player {
        b.rating as i128 - player
    } else {
        player - b.rating as i128
    };
    if da != db {
        da < db
    } else if a.rating_deviation != b.rating_deviation {
        a.rating_deviation < b.rating_deviation
    } else {
        text_le_exec(a.id.as_str(), b.id.as_str())
    }
}

/// Chooses the puzzle for a player: among the candidates not completed, the
/// one nearest the player's rating, then of lowest rating deviation, then of
/// smallest id; `None` when every candidate is completed.
pub fn select_best(candidates: &[PuzzleCandidate], player_rating: i32, completed: &[String]) -> (r:
    Option<usize>)
    ensures
        r is None <==> forall|i: int|
            0 <= i < candidates@.len() ==> is_completed((#[trigger] candidates@[i]).id@, completed@),
        r matches Some(best) ==> best < candidates@.len() && !is_completed(
            candidates@[best as int].id@,
            completed@,
        ) && forall|j: int|
            0 <= j < candidates@.len() && !is_completed((#[trigger] candidates@[j]).id@, completed@)
                ==> preferred(candidates@[best as int]@, candidates@[j]@, player_rating),
        r matches Some(best) ==> forall|j: int|
            0 <= j < best && !is_completed((#[trigger] candidates@[j]).id@, completed@)
                ==> !preferred(candidates@[j]@, candidates@[best as int]@, player_rating),
{
    let mut best: Option<usize> = None;
    let mut i: usize = 0;
    while i < candidates.len()
        invariant
            i <= candidates@.len(),
            best is None <==> forall|j: int|
                0 <= j < i ==> is_completed((#[trigger] candidates@[j]).id@, completed@),
            best matches Some(b) ==> b < i && !is_completed(candidates@[b as int].id@, completed@)
                && forall|j: int|
                0 <= j < i && !is_completed((#[trigger] candidates@[j]).id@, completed@)
                    ==> preferred(candidates@[b as int]@, candidates@[j]@, player_rating),
            best matches Some(b) ==> forall|j: int|
                0 <= j < b && !is_completed((#[trigger] candidates@[j]).id@, completed@)
                    ==> !preferred(candidates@[j]@, candidates@[b as int]@, player_rating),
        decreases candidates.len() - i,
    {
        if !completed_contains(completed, &candidates[i].id) {
            match best {
                None => {
                    best = Some(i);
                },
                Some(b) => {
                    if !preferred_exec(&candidates[b], &candidates[i], player_rating) {
                        proof {
                            lemma_preferred_total(candidates@[b as int]@, candidates@[i as int]@, player_rating);
                            assert forall|j: int|
                                0 <= j < i + 1 && !is_completed((#[trigger] candidates@[j]).id@, completed@)
                                implies preferred(candidates@[i as int]@, candidates@[j]@, player_rating) by {
                                if j < i {
                                    lemma_preferred_transitive(
                                        candidates@[i as int]@,
                                        candidates@[b as int]@,
                                        candidates@[j]@,
                                        player_rating,
                                    );
                                } else {
                                    lemma_preferred_reflexive(candidates@[i as int]@, player_rating);
                                }
                            }
                            assert forall|j: int|
                                0 <= j < i && !is_completed((#[trigger] candidates@[j]).id@, completed@)
                                implies !preferred(candidates@[j]@, candidates@[i as int]@, player_rating) by {
                                if preferred(candidates@[j]@, candidates@[i as int]@, player_rating) {
                                    lemma_preferred_transitive(
                                        candidates@[b as int]@,
                                        candidates@[j]@,
                                        candidates@[i as int]@,
                                        player_rating,
                                    );
                                }
                            }
                        }
                        best = Some(i);
                    }
                },
            }
        }
        proof {
            if best is Some && best->0 == i {
                lemma_preferred_reflexive(candidates@[i as int]@, player_rating);
            }
        }
        i = i + 1;
    }
    best
}

/// The id of the puzzle on screen, if any.
pub open spec fn current_id(current: Option<&String>) -> Option<Seq<char>> {
    match current {
        Some(id) => Some(id@),
        None => None,
    }
}

/// Whether choosing the next puzzle passes over the puzzle with id `id`:
/// it is completed, or it is the one on screen.
pub open spec fn passed_over(id: Seq<char>, completed: Seq<String>, current: Option<Seq<char>>) -> bool {
    is_completed(id, completed) || current == Some(id)
}

/// Chooses the next puzzle for a player as `select_best` does, passing over
/// the puzzle on screen as well as the completed ones, so that asking for a
/// new puzzle never gives the current one again; `None` when no other
/// puzzle is left.
pub fn select_next_puzzle(
    candidates: &[PuzzleCandidate],
    player_rating: i32,
    completed: &[String],
    current: Option<&String>,
) -> (r: Option<usize>)
    ensures
        r is None <==> forall|i: int|
            0 <= i < candidates@.len() ==> passed_over(
                (#[trigger] candidates@[i]).id@,
                completed@,
                current_id(current),
            ),
        r matches Some(best) ==> best < candidates@.len() && !passed_over(
            candidates@[best as int].id@,
            completed@,
            current_id(current),
        ) && forall|j: int|
            0 <= j < candidates@.len() && !passed_over(
                (#[trigger] candidates@[j]).id@,
                completed@,
                current_id(current),
            ) ==> preferred(candidates@[best as int]@, candidates@[j]@, player_rating),
        r matches Some(best) ==> forall|j: int|
            0 <= j < best && !passed_over(
                (#[trigger] candidates@[j]).id@,
                completed@,
                current_id(current),
            ) ==> !preferred(candidates@[j]@, candidates@[best as int]@, player_rating),
        r matches Some(best) ==> current_id(current) != Some(candidates@[best as int].id@),
{
    let mut excluded: Vec<String> = Vec::new();
    let mut k: usize = 0;
    while k < completed.len()
        invariant
            k <= completed@.len(),
            excluded@.len() == k,
            forall|j: int| 0 <= j < k ==> (#[trigger] excluded@[j])@ == completed@[j]@,
        decreases completed.len() - k,
    {
        excluded.push(completed[k].clone());
        k = k + 1;
    }
    match current {
        Some(id) => {
            excluded.push(id.clone());
        },
        None => {},
    }
    proof {
        assert forall|id: Seq<char>|
            #[trigger] is_completed(id, excluded@) == passed_over(id, completed@, current_id(current)) by {
            if is_completed(id, completed@) {
                let k = choose|k: int| 0 <= k < completed@.len() && (#[trigger] completed@[k])@ == id;
                assert(excluded@[k]@ == id);
            }
            if current_id(current) == Some(id) {
                assert(excluded@[completed@.len() as int]@ == id);
            }
        }
    }
    select_best(candidates, player_rating, excluded.as_slice())
}

proof fn lemma_text_le_reflexive(a: Seq<char>)
    ensures
        text_le(a, a),
    decreases a.len(),
{
    if a.len() > 0 {
        lemma_text_le_reflexive(a.drop_first());
    }
}

proof fn lemma_text_le_total(a: Seq<char>, b: Seq<char>)
    ensures
        text_le(a, b) || text_le(b, a),
    decreases a.len(),
{
    if a.len() > 0 && b.len() > 0 && (a[0] as u32) == (b[0] as u32) {
        lemma_text_le_total(a.drop_first(), b.drop_first());
    }
}

proof fn lemma_text_le_transitive(a: Seq<char>, b: Seq<char>, c: Seq<char>)
    requires
        text_le(a, b),
        text_le(b, c),
    ensures
        text_le(a, c),
    decreases a.len(),
{
    if a.len() > 0 && b.len() > 0 && c.len() > 0 && (a[0] as u32) == (b[0] as u32) && (b[0] as u32)
        == (c[0] as u32) {
        lemma_text_le_transitive(a.drop_first(), b.drop_first(), c.drop_first());
    }
}

proof fn lemma_preferred_reflexive(a: CandidateView, player_rating: i32)
    ensures
        preferred(a, a, player_rating),
{
    lemma_text_le_reflexive(a.id);
}

proof fn lemma_preferred_total(a: CandidateView, b: CandidateView, player_rating: i32)
    ensures
        preferred(a, b, player_rating) || preferred(b, a, player_rating),
{
    lemma_text_le_total(a.id, b.id);
}

proof fn lemma_preferred_transitive(
    a: CandidateView,
    b: CandidateView,
    c: CandidateView,
    player_rating: i32,
)
    requires
        preferred(a, b, player_rating),
        preferred(b, c, player_rating),
    ensures
        preferred(a, c, player_rating),
{
    if rating_distance(a.rating, player_rating) == rating_distance(b.rating, player_rating)
        && rating_distance(b.rating, player_rating) == rating_distance(c.rating, player_rating)
        && a.rating_deviation == b.rating_deviation && b.rating_deviation == c.rating_deviation {
        lemma_text_le_transitive(a.id, b.id, c.id);
    }
}

// ---------------------------------------------------------------------------
// The unpacked copy of the catalogue.
// ---------------------------------------------------------------------------

/// The marker that identifies a version of the compressed catalogue: its
/// length and its modification time in nanoseconds, as `length:time`.
pub open spec fn source_marker_of(length: u64, modified_nanos: u128) -> Seq<char> {
    decimal(length as nat) + ":"@ + decimal(modified_nanos as nat)
}

/// The marker that identifies a version of the compressed catalogue.
pub fn source_marker(length: u64, modified_nanos: u128) -> (r: String)
    ensures
        r@ == source_marker_of(length, modified_nanos),
{
    let mut marker = String::new();
    push_decimal(&mut marker, length as u128);
    marker.append(":");
    push_decimal(&mut marker, modified_nanos);
    marker
}

/// What zstd's `decode_all` gives for the bytes `compressed`: the
/// decompressed bytes, or the text of its error.
pub uninterp spec fn zstd_decoded(compressed: Seq<u8>) -> Result<Seq<u8>, Seq<char>>;

/// A decompression outcome, each side taken by its view.
pub open spec fn decoded_view(r: Result<Vec<u8>, String>) -> Result<Seq<u8>, Seq<char>> {
    match r {
        Ok(bytes) => Ok(bytes@),
        Err(message) => Err(message@),
    }
}

/// Decompresses zstd frames with `zstd::stream::decode_all`, which decodes
/// as a `zstd::stream::read::Decoder` does; the error is the text of the
/// `io::Error` it gives. The contract names the outcome, a function of the
/// bytes alone.
#[verifier::external_body]
fn decompress_zstd(compressed: &[u8]) -> (r: Result<Vec<u8>, String>)
    ensures
        zstd_decoded(compressed@) == decoded_view(r),
{
    zstd::stream::decode_all(compressed).map_err(|e| e.to_string())
}

/// What unpacking the compressed catalogue read from `source` gives: its
/// decompressed bytes, or the message that names the source and the problem.
pub open spec fn unpacked_outcome(compressed: Seq<u8>, source: Seq<char>) -> Result<Seq<u8>, Seq<char>> {
    match zstd_decoded(compressed) {
        Ok(bytes) => Ok(bytes),
        Err(detail) => Err("could not unpack "@ + source + ": "@ + detail),
    }
}

/// Unpacks the compressed catalogue: the bytes of the database it holds, or
/// the error that names `source`, where the catalogue was read from.
pub fn unpack_catalogue(compressed: &[u8], source: &str) -> (r: Result<Vec<u8>, LoadError>)
    ensures
        result_view(r) == unpacked_outcome(compressed@, source@),
{
    match decompress_zstd(compressed) {
        Ok(bytes) => Ok(bytes),
        Err(detail) => {
            let mut message = String::from_str("could not unpack ");
            message.append(source);
            message.append(": ");
            message.append(detail.as_str());
            Err(LoadError(message))
        },
    }
}

/// Whether the unpacked copy of the catalogue can be used as it is: it
/// exists, and the marker recorded with it is that of the current source.
/// Otherwise the catalogue is unpacked again.
pub fn unpacked_copy_is_current(
    database_exists: bool,
    recorded_marker: Option<&str>,
    source_marker: &str,
) -> (r: bool)
    ensures
        r == (database_exists && (recorded_marker matches Some(m) && m@ == source_marker@)),
{
    if !database_exists {
        return false;
    }
    match recorded_marker {
        Some(m) => String::from_str(m) == String::from_str(source_marker),
        None => false,
    }
}

// ---------------------------------------------------------------------------
// Reading a puzzle record.
// ---------------------------------------------------------------------------

/// Whether `c` is white space in Unicode (the `White_Space` property, as
/// `char::is_whitespace` documents it).
pub open spec fn is_white_space(c: char) -> bool {
    let u = c as u32;
    ||| 0x9 <= u <= 0xd
    ||| u == 0x20
    ||| u == 0x85
    ||| u == 0xa0
    ||| u == 0x1680
    ||| 0x2000 <= u <= 0x200a
    ||| u == 0x2028
    ||| u == 0x2029
    ||| u == 0x202f
    ||| u == 0x205f
    ||| u == 0x3000
}

fn white_space(c: char) -> (r: bool)
    ensures
        r == is_white_space(c),
{
    let u = c as u32;
    (0x9 <= u && u <= 0xd) || u == 0x20 || u == 0x85 || u == 0xa0 || u == 0x1680 || (0x2000 <= u
        && u <= 0x200a) || u == 0x2028 || u == 0x2029 || u == 0x202f || u == 0x205f || u == 0x3000
}

/// The word being read, as a list of no or one word.
pub open spec fn finished_word(word: Seq<char>) -> Seq<Seq<char>> {
    if word.len() > 0 {
        seq![word]
    } else {
        Seq::empty()
    }
}

/// The words of `text` once `word` has been read: the maximal runs of
/// characters that are not white space.
pub open spec fn words_after(text: Seq<char>, word: Seq<char>) -> Seq<Seq<char>>
    decreases text.len(),
{
    if text.len() == 0 {
        finished_word(word)
    } else if is_white_space(text[0]) {
        finished_word(word) + words_after(text.drop_first(), Seq::empty())
    } else {
        words_after(text.drop_first(), word.push(text[0]))
    }
}

/// The words of `text`, separated by white space (as `str::split_whitespace`).
pub open spec fn words(text: Seq<char>) -> Seq<Seq<char>> {
    words_after(text, Seq::empty())
}

/// The words of a text, separated by white space.
pub fn split_words(text: &str) -> (r: Vec<String>)
    ensures
        r@.map_values(|w: String| w@) == words(text@),
{
    let n = text.unicode_len();
    let mut found: Vec<String> = Vec::new();
    let mut start: usize = 0;
    let mut i: usize = 0;
    assert(text@.skip(0) == text@);
    assert(text@.subrange(0, 0) == Seq::<char>::empty());
    while i < n
        invariant
            n == text@.len(),
            start <= i <= n,
            words(text@) == found@.map_values(|w: String| w@) + words_after(
                text@.skip(i as int),
                text@.subrange(start as int, i as int),
            ),
        decreases n - i,
    {
        let c = text.get_char(i);
        let ghost rest = text@.skip(i as int);
        let ghost word = text@.subrange(start as int, i as int);
        assert(rest[0] == c);
        assert(rest.drop_first() == text@.skip(i + 1));
        if white_space(c) {
            let ghost before = found@.map_values(|w: String| w@);
            if start < i {
                let w = String::from_str(text.substring_char(start, i));
                found.push(w);
                assert(found@.map_values(|w: String| w@) == before + finished_word(word));
            } else {
                assert(finished_word(word) == Seq::<Seq<char>>::empty());
                assert(before + finished_word(word) == before);
            }
            assert(text@.subrange((i + 1) as int, (i + 1) as int) == Seq::<char>::empty());
            start = i + 1;
        } else {
            assert(word.push(c) == text@.subrange(start as int, i + 1));
        }
        i = i + 1;
    }
    let ghost before = found@.map_values(|w: String| w@);
    let ghost word = text@.subrange(start as int, n as int);
    if start < n {
        let w = String::from_str(text.substring_char(start, n));
        found.push(w);
        assert(found@.map_values(|w: String| w@) == before + finished_word(word));
    } else {
        assert(before + finished_word(word) == before);
    }
    found
}

/// A puzzle of the catalogue: its id, rating and rating deviation, the
/// position before the setup move, the setup move and the solution.
#[derive(Clone, Debug)]
pub struct Puzzle {
    pub id: String,
    pub rating: u16,
    pub rating_deviation: u16,
    pub initial_fen: Position,
    pub setup_move: ChessMove,
    pub solution: Vec<ChessMove>,
}

/// A puzzle as a value.
pub struct PuzzleView {
    pub id: Seq<char>,
    pub rating: u16,
    pub rating_deviation: u16,
    pub initial_fen: Seq<char>,
    pub setup_move: ChessMove,
    pub solution: Seq<ChessMove>,
}

impl View for Puzzle {
    type V = PuzzleView;

    open spec fn view(&self) -> PuzzleView {
        PuzzleView {
            id: self.id@,
            rating: self.rating,
            rating_deviation: self.rating_deviation,
            initial_fen: self.initial_fen@,
            setup_move: self.setup_move,
            solution: self.solution@,
        }
    }
}

/// Why no puzzle could be loaded.
#[derive(Debug)]
pub struct LoadError(String);

impl View for LoadError {
    type V = Seq<char>;

    closed spec fn view(&self) -> Seq<char> {
        self.0@
    }
}

impl LoadError {
    /// A load error with the given description.
    pub fn new(message: String) -> (r: LoadError)
        ensures
            r@ == message@,
    {
        LoadError(message)
    }

    /// The description of the problem.
    pub fn message(&self) -> (r: &str)
        ensures
            r@ == self@,
    {
        self.0.as_str()
    }
}

/// The moves that the words read as, or the first word that does not read
/// as a move with the error message.
pub open spec fn moves_of(words: Seq<Seq<char>>) -> Result<Seq<ChessMove>, (Seq<char>, Seq<char>)>
    decreases words.len(),
{
    if words.len() == 0 {
        Ok(Seq::empty())
    } else {
        match uci_outcome(words[0]) {
            Err(message) => Err((words[0], message)),
            Ok(m) => match moves_of(words.drop_first()) {
                Err(problem) => Err(problem),
                Ok(rest) => Ok(seq![m] + rest),
            },
        }
    }
}

/// The message that starts every problem of puzzle `id`.
pub open spec fn about(id: Seq<char>) -> Seq<char> {
    "puzzle "@ + id
}

/// The puzzle that a catalogue record holds, or the error message.
pub open spec fn record_outcome(
    id: Seq<char>,
    fen: Seq<char>,
    moves: Seq<char>,
    rating: i64,
    rating_deviation: i64,
) -> Result<PuzzleView, Seq<char>> {
    if !(0 <= rating <= u16::MAX) {
        Err(about(id) + " has an invalid rating: "@ + signed_decimal(rating as int, false))
    } else if !(0 <= rating_deviation <= u16::MAX) {
        Err(about(id) + " has an invalid rating deviation: "@ + signed_decimal(
            rating_deviation as int,
            false,
        ))
    } else {
        match fen_outcome(fen) {
            Err(message) => Err(about(id) + " has an invalid FEN: "@ + message),
            Ok(initial_fen) => {
                let all = words(moves);
                if all.len() == 0 {
                    Err(about(id) + " has no setup move"@)
                } else {
                    match moves_of(all) {
                        Err((word, message)) => Err(
                            about(id) + " has an invalid move "@ + word + ": "@ + message,
                        ),
                        Ok(parsed) => if parsed.len() == 1 {
                            Err(about(id) + " has no solution moves"@)
                        } else {
                            Ok(
                                PuzzleView {
                                    id,
                                    rating: rating as u16,
                                    rating_deviation: rating_deviation as u16,
                                    initial_fen,
                                    setup_move: parsed[0],
                                    solution: parsed.drop_first(),
                                },
                            )
                        },
                    }
                }
            },
        }
    }
}

fn problem(id: &String, what: &str) -> (r: String)
    ensures
        r@ == about(id@) + what@,
{
    let mut message = String::from_str("puzzle ");
    message.append(id.as_str());
    message.append(what);
    message
}

/// Reads a catalogue record: checks the ratings, reads the position and the
/// moves, the first being the setup move and the others the solution.
pub fn puzzle_from_record(id: String, fen: &str, moves: &str, rating: i64, rating_deviation: i64) -> (r:
    Result<Puzzle, LoadError>)
    ensures
        result_view(r) == record_outcome(id@, fen@, moves@, rating, rating_deviation),
{
    if !(0 <= rating && rating <= 65535) {
        let mut message = problem(&id, " has an invalid rating: ");
        push_signed_decimal(&mut message, rating, false);
        return Err(LoadError(message));
    }
    if !(0 <= rating_deviation && rating_deviation <= 65535) {
        let mut message = problem(&id, " has an invalid rating deviation: ");
        push_signed_decimal(&mut message, rating_deviation, false);
        return Err(LoadError(message));
    }
    let initial_fen = match Position::from_fen(fen) {
        Ok(position) => position,
        Err(error) => {
            let mut message = problem(&id, " has an invalid FEN: ");
            message.append(error.message());
            return Err(LoadError(message));
        },
    };
    let all = split_words(moves);
    if all.len() == 0 {
        return Err(LoadError(problem(&id, " has no setup move")));
    }
    let ghost texts = all@.map_values(|w: String| w@);
    let mut parsed: Vec<ChessMove> = Vec::new();
    let mut k: usize = 0;
    assert(texts.skip(0) == texts);
    while k < all.len()
        invariant
            texts == all@.map_values(|w: String| w@),
            texts == words(moves@),
            texts.len() > 0,
            0 <= rating <= u16::MAX,
            0 <= rating_deviation <= u16::MAX,
            fen_outcome(fen@) == Ok::<Seq<char>, Seq<char>>(initial_fen@),
            k <= all@.len(),
            parsed@.len() == k,
            moves_of(texts) == match moves_of(texts.skip(k as int)) {
                Ok(rest) => Ok(parsed@ + rest),
                Err(problem) => Err::<Seq<ChessMove>, (Seq<char>, Seq<char>)>(problem),
            },
        decreases all.len() - k,
    {
        assert(texts.skip(k as int)[0] == all@[k as int]@);
        assert(texts.skip(k as int).drop_first() == texts.skip(k + 1));
        match ChessMove::from_uci(all[k].as_str()) {
            Ok(m) => {
                let ghost before = parsed@;
                parsed.push(m);
                proof {
                    match moves_of(texts.skip(k + 1)) {
                        Ok(rest) => {
                            assert(before + (seq![m] + rest) == parsed@ + rest);
                        },
                        Err(_) => {},
                    }
                }
            },
            Err(error) => {
                let mut message = problem(&id, " has an invalid move ");
                message.append(all[k].as_str());
                message.append(": ");
                message.append(error.message());
                return Err(LoadError(message));
            },
        }
        k = k + 1;
    }
    assert(texts.skip(k as int).len() == 0);
    assert(parsed@ + Seq::<ChessMove>::empty() == parsed@);
    if parsed.len() == 1 {
        return Err(LoadError(problem(&id, " has no solution moves")));
    }
    let setup_move = parsed[0];
    let mut solution: Vec<ChessMove> = Vec::new();
    let mut j: usize = 1;
    while j < parsed.len()
        invariant
            1 <= j <= parsed@.len(),
            solution@ == parsed@.subrange(1, j as int),
        decreases parsed.len() - j,
    {
        solution.push(parsed[j]);
        j = j + 1;
    }
    assert(solution@ == parsed@.drop_first());
    Ok(
        Puzzle {
            id,
            rating: rating as u16,
            rating_deviation: rating_deviation as u16,
            initial_fen,
            setup_move,
            solution,
        },
    )
}

} // verus!
