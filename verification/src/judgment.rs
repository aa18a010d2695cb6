//! Judging key events against the falling notes.
//!
//! A key that goes down strikes a live note whose key it plays. The note is judged by
//! how far it has fallen past the strike line, the upper edge of the white keys: a note
//! at or above the line earns the full score, and every bit below the line costs in
//! proportion, down to nothing. The struck note leaves the scene at once. A key that
//! plays no live note changes nothing.

use crate::keyboard::WHITE_KEY_HEIGHT;
use crate::midi::{MidiInputKey, MidiInputState};
use crate::octave::{device_key_of, plays_key};
use crate::timeline::{
    notes_orderly, notes_settled, MusicTimelineItem, MusicTimelineState, TimelineNote,
};
use vstd::prelude::*;

verus! {

/// Distance below the strike line at which a strike earns nothing any more.
pub const MAX_ERROR_WINDOW: u128 = 5_000_000;

/// What a strike on the line earns.
pub const BASE_SCORE: u64 = 1000;

/// The result of a session so far.
#[derive(Clone, Copy, Debug, PartialEq, Eq, Structural)]
pub struct GameState {
    /// Sum of what the strikes have earned.
    pub score: u64,
}

/// Which note a key strikes when several live notes ask for it.
#[derive(Clone, Copy, Debug, PartialEq, Eq, Structural)]
pub enum TieBreak {
    /// The note that appeared first.
    FirstFound,
    /// The note that is nearest to the strike line, above or below it; among notes at
    /// the same distance, the one that appeared first.
    NearestToLine,
}

/// One strike: the key event, the note that it took away, and what it earned.
#[derive(Clone, Copy, Debug, PartialEq, Eq, Structural)]
pub struct TimelineHit {
    pub key: MidiInputKey,
    pub note: TimelineNote,
    pub score: u64,
}

/// How far a note at a height has fallen past the strike line; zero for a note that has
/// not reached it.
pub open spec fn timing_error(position_y: int) -> int {
    if position_y < WHITE_KEY_HEIGHT {
        WHITE_KEY_HEIGHT - position_y
    } else {
        0
    }
}

/// What the timing error of a strike costs: the share of the base score that the error
/// is of the error window, rounded down.
pub open spec fn mistake_cost(position_y: int) -> int {
    BASE_SCORE * timing_error(position_y) / (MAX_ERROR_WINDOW as int)
}

/// What a strike would earn if an error beyond the window were charged in full. It is
/// negative for a note that has fallen more than the window past the line.
pub open spec fn unclamped_score(position_y: int) -> int {
    BASE_SCORE - mistake_cost(position_y)
}

/// What a strike on a note at a height earns: the base score less the cost of the
/// timing error, and never less than nothing.
pub open spec fn strike_score(position_y: int) -> int {
    if unclamped_score(position_y) < 0 {
        0
    } else {
        unclamped_score(position_y)
    }
}

/// The timing error of a strike, held at the end of the error window: as a share of the
/// window it lies between nothing and the whole.
pub open spec fn clamped_error(position_y: int) -> int {
    if timing_error(position_y) > MAX_ERROR_WINDOW {
        MAX_ERROR_WINDOW as int
    } else {
        timing_error(position_y)
    }
}

/// The score after a strike has earned `earned`, held at the largest number that the
/// score can show.
pub open spec fn score_sum(score: u64, earned: u64) -> u64 {
    if score + earned > u64::MAX {
        u64::MAX
    } else {
        (score + earned) as u64
    }
}

/// Whether a device key under an octave setting plays the key of a note.
pub open spec fn note_plays(note: TimelineNote, octave: i32, key_id: u8) -> bool {
    device_key_of(note.logical_key as int, octave as int) == key_id
}

/// The distance between a height and the strike line.
pub open spec fn line_distance(position_y: int) -> int {
    if position_y < WHITE_KEY_HEIGHT {
        WHITE_KEY_HEIGHT - position_y
    } else {
        position_y - WHITE_KEY_HEIGHT
    }
}

/// The number by which notes that ask for the same key are compared: the smaller one is
/// struck.
pub open spec fn rank(tie_break: TieBreak, note: TimelineNote) -> int {
    match tie_break {
        TieBreak::FirstFound => 0,
        TieBreak::NearestToLine => line_distance(note.position_y as int),
    }
}

/// The place of the note that a key strikes, if it strikes one: among the notes whose
/// key it plays, the one of smallest rank, and the first of those.
pub open spec fn struck_index(
    notes: Seq<TimelineNote>,
    octave: i32,
    key_id: u8,
    tie_break: TieBreak,
) -> Option<int>
    decreases notes.len(),
{
    if notes.len() == 0 {
        None
    } else {
        let before = struck_index(notes.drop_last(), octave, key_id, tie_break);
        if !note_plays(notes.last(), octave, key_id) {
            before
        } else {
            match before {
                None => Some(notes.len() - 1),
                Some(best) => if rank(tie_break, notes.last()) < rank(tie_break, notes[best]) {
                    Some(notes.len() - 1)
                } else {
                    Some(best)
                },
            }
        }
    }
}

/// The live notes and the score, as judging changes them.
pub struct Scene {
    pub notes: Seq<TimelineNote>,
    pub score: u64,
}

impl Scene {
    /// The strike that a key event makes, if it makes one. A key that goes up strikes
    /// nothing.
    pub open spec fn hit_of(self, octave: i32, tie_break: TieBreak, key: MidiInputKey) -> Option<
        TimelineHit,
    > {
        if !key.event.is_down() {
            None
        } else {
            match struck_index(self.notes, octave, key.id, tie_break) {
                None => None,
                Some(place) => Some(
                    TimelineHit {
                        key,
                        note: self.notes[place],
                        score: strike_score(self.notes[place].position_y as int) as u64,
                    },
                ),
            }
        }
    }

    /// The scene after one key event: a struck note is gone and what it earned is added
    /// to the score. Without a strike the scene stays as it is.
    pub open spec fn strike(self, octave: i32, tie_break: TieBreak, key: MidiInputKey) -> Scene {
        if !key.event.is_down() {
            self
        } else {
            match struck_index(self.notes, octave, key.id, tie_break) {
                None => self,
                Some(place) => Scene {
                    notes: self.notes.remove(place),
                    score: score_sum(
                        self.score,
                        strike_score(self.notes[place].position_y as int) as u64,
                    ),
                },
            }
        }
    }

    /// The scene after a run of key events, judged in the order of arrival.
    pub open spec fn strike_all(self, octave: i32, tie_break: TieBreak, keys: Seq<MidiInputKey>) -> Scene
        decreases keys.len(),
    {
        if keys.len() == 0 {
            self
        } else {
            self.strike_all(octave, tie_break, keys.drop_last()).strike(
                octave,
                tie_break,
                keys.last(),
            )
        }
    }

    /// The strikes that a run of key events makes, in the order of arrival.
    pub open spec fn hits_of(self, octave: i32, tie_break: TieBreak, keys: Seq<MidiInputKey>) -> Seq<
        TimelineHit,
    >
        decreases keys.len(),
    {
        if keys.len() == 0 {
            Seq::empty()
        } else {
            let before = self.hits_of(octave, tie_break, keys.drop_last());
            let scene = self.strike_all(octave, tie_break, keys.drop_last());
            match scene.hit_of(octave, tie_break, keys.last()) {
                Some(hit) => before.push(hit),
                None => before,
            }
        }
    }
}

impl GameState {
    /// The result of a session in which nothing was struck yet.
    pub fn new() -> (state: GameState)
        ensures
            state.score == 0,
    {
        GameState { score: 0 }
    }

    /// Adds what a strike earned.
    pub fn add_score(&mut self, earned: u64)
        ensures
            final(self).score == score_sum(old(self).score, earned),
            final(self).score >= old(self).score,
    {
        self.score = self.score.saturating_add(earned);
    }

    /// Sets the score back to zero.
    pub fn reset(&mut self)
        ensures
            final(self).score == 0,
    {
        self.score = 0;
    }
}

/// The distance between two heights.
fn height_distance(high: i128, low: i128) -> (distance: u128)
    requires
        low <= high,
    ensures
        distance == high - low,
{
    if low >= 0 {
        (high - low) as u128
    } else if high < 0 {
        (high - low) as u128
    } else {
        let below: u128 = (-(low + 1)) as u128;
        high as u128 + below + 1
    }
}

/// Computes how far a note at a height has fallen past the strike line.
pub fn note_timing_error(position_y: i128) -> (error: u128)
    ensures
        error == timing_error(position_y as int),
{
    if position_y < WHITE_KEY_HEIGHT {
        height_distance(WHITE_KEY_HEIGHT, position_y)
    } else {
        0
    }
}

/// Computes the distance between a height and the strike line.
pub fn note_line_distance(position_y: i128) -> (distance: u128)
    ensures
        distance == line_distance(position_y as int),
{
    if position_y < WHITE_KEY_HEIGHT {
        height_distance(WHITE_KEY_HEIGHT, position_y)
    } else {
        height_distance(position_y, WHITE_KEY_HEIGHT)
    }
}

/// The cost of an error is the cost of its whole windows plus the cost of what is left.
proof fn lemma_cost_by_parts(error: int)
    requires
        error >= 0,
    ensures
        BASE_SCORE * error / (MAX_ERROR_WINDOW as int) == BASE_SCORE * (error / (
        MAX_ERROR_WINDOW as int)) + BASE_SCORE * (error % (MAX_ERROR_WINDOW as int)) / (
        MAX_ERROR_WINDOW as int),
{
    let window = MAX_ERROR_WINDOW as int;
    let whole = error / window;
    let rest = error % window;
    assert(error == window * whole + rest && 0 <= rest < window) by (nonlinear_arith)
        requires
            whole == error / window,
            rest == error % window,
            window == 5_000_000,
    ;
    assert((1000 * (window * whole + rest)) / window == 1000 * whole + (1000 * rest) / window)
        by (nonlinear_arith)
        requires
            window == 5_000_000,
    ;
}

/// Computes what a strike would earn if an error beyond the window were charged in full.
pub fn score_delta_unclamped(position_y: i128) -> (score: i128)
    ensures
        score == unclamped_score(position_y as int),
{
    let error = note_timing_error(position_y);
    let whole: u128 = error / MAX_ERROR_WINDOW;
    let rest: u128 = error % MAX_ERROR_WINDOW;
    proof {
        lemma_cost_by_parts(error as int);
    }
    let cost: u128 = BASE_SCORE as u128 * whole + BASE_SCORE as u128 * rest / MAX_ERROR_WINDOW;
    BASE_SCORE as i128 - cost as i128
}

/// Computes what a strike on a note at a height earns.
pub fn score_delta(position_y: i128) -> (score: u64)
    ensures
        score == strike_score(position_y as int),
        score <= BASE_SCORE,
{
    let score = score_delta_unclamped(position_y);
    proof {
        lemma_score_bounds(position_y as int);
    }
    if score < 0 {
        0
    } else {
        score as u64
    }
}

/// Finds the note that a key strikes.
pub fn find_struck_note(
    notes: &Vec<TimelineNote>,
    octave: i32,
    key_id: u8,
    tie_break: TieBreak,
) -> (found: Option<usize>)
    ensures
        match found {
            Some(place) => struck_index(notes@, octave, key_id, tie_break) == Some(place as int),
            None => struck_index(notes@, octave, key_id, tie_break).is_none(),
        },
{
    let mut found: Option<usize> = None;
    let mut best_rank: u128 = 0;
    let mut index: usize = 0;
    proof {
        assert(notes@.take(0) =~= Seq::empty());
    }
    while index < notes.len()
        invariant
            index <= notes@.len(),
            match found {
                Some(place) => {
                    &&& struck_index(notes@.take(index as int), octave, key_id, tie_break) == Some(
                        place as int,
                    )
                    &&& place < index
                    &&& best_rank == rank(tie_break, notes@[place as int])
                },
                None => struck_index(
                    notes@.take(index as int),
                    octave,
                    key_id,
                    tie_break,
                ).is_none(),
            },
        decreases notes@.len() - index,
    {
        let note = notes[index];
        proof {
            let next = notes@.take(index + 1);
            assert(next.drop_last() =~= notes@.take(index as int));
            assert(next.last() == note);
            assert(forall|i: int| 0 <= i < index ==> next[i] == notes@[i]);
        }
        if plays_key(note.logical_key, octave, key_id) {
            let note_rank: u128 = match tie_break {
                TieBreak::FirstFound => 0,
                TieBreak::NearestToLine => note_line_distance(note.position_y),
            };
            match found {
                None => {
                    found = Some(index);
                    best_rank = note_rank;
                },
                Some(_) => {
                    if note_rank < best_rank {
                        found = Some(index);
                        best_rank = note_rank;
                    }
                },
            }
        }
        index = index + 1;
    }
    proof {
        assert(notes@.take(notes@.len() as int) =~= notes@);
    }
    found
}

/// Judges one key event: a key that goes down and plays a live note strikes it. The
/// struck note is taken away and what it earned is added to the score. Returns the
/// strike, if there was one.
pub fn judge_key(
    key: MidiInputKey,
    octave: i32,
    tie_break: TieBreak,
    notes: &mut Vec<TimelineNote>,
    game_state: &mut GameState,
) -> (hit: Option<TimelineHit>)
    ensures
        (Scene { notes: final(notes)@, score: final(game_state).score }) == (Scene {
            notes: old(notes)@,
            score: old(game_state).score,
        }).strike(octave, tie_break, key),
        hit == (Scene { notes: old(notes)@, score: old(game_state).score }).hit_of(
            octave,
            tie_break,
            key,
        ),
        final(game_state).score >= old(game_state).score,
{
    if !key.event.strikes() {
        return None;
    }
    match find_struck_note(notes, octave, key.id, tie_break) {
        None => None,
        Some(place) => {
            proof {
                lemma_struck_index(notes@, octave, key.id, tie_break);
            }
            let note = notes.remove(place);
            let score = score_delta(note.position_y);
            game_state.add_score(score);
            Some(TimelineHit { key, note, score })
        },
    }
}

/// Judges the key events of a tick against the live notes, in the order of arrival.
/// Every strike takes its note away and adds to the score. Returns the strikes.
pub fn check_timeline_collisions(
    key_events: &Vec<MidiInputKey>,
    midi_state: &MidiInputState,
    tie_break: TieBreak,
    notes: &mut Vec<TimelineNote>,
    game_state: &mut GameState,
) -> (hits: Vec<TimelineHit>)
    ensures
        (Scene { notes: final(notes)@, score: final(game_state).score }) == (Scene {
            notes: old(notes)@,
            score: old(game_state).score,
        }).strike_all(midi_state.octave, tie_break, key_events@),
        hits@ == (Scene { notes: old(notes)@, score: old(game_state).score }).hits_of(
            midi_state.octave,
            tie_break,
            key_events@,
        ),
        final(game_state).score >= old(game_state).score,
{
    let ghost start = Scene { notes: notes@, score: game_state.score };
    let octave = midi_state.octave;
    let mut hits: Vec<TimelineHit> = Vec::new();
    let mut index: usize = 0;
    proof {
        assert(key_events@.take(0) =~= Seq::empty());
    }
    while index < key_events.len()
        invariant
            index <= key_events@.len(),
            (Scene { notes: notes@, score: game_state.score }) == start.strike_all(
                octave,
                tie_break,
                key_events@.take(index as int),
            ),
            hits@ == start.hits_of(octave, tie_break, key_events@.take(index as int)),
            game_state.score >= start.score,
        decreases key_events@.len() - index,
    {
        let key = key_events[index];
        proof {
            let next = key_events@.take(index + 1);
            assert(next.drop_last() =~= key_events@.take(index as int));
            assert(next.last() == key);
        }
        match judge_key(key, octave, tie_break, notes, game_state) {
            Some(hit) => {
                hits.push(hit);
            },
            None => {},
        }
        index = index + 1;
    }
    proof {
        assert(key_events@.take(key_events@.len() as int) =~= key_events@);
    }
    hits
}

/// The note that a key strikes plays that key, and no other note that plays it has a
/// smaller rank, or the same rank and an earlier place. A key strikes nothing only if
/// no live note plays it.
pub proof fn lemma_struck_index(
    notes: Seq<TimelineNote>,
    octave: i32,
    key_id: u8,
    tie_break: TieBreak,
)
    ensures
        match struck_index(notes, octave, key_id, tie_break) {
            Some(place) => {
                &&& 0 <= place < notes.len()
                &&& note_plays(notes[place], octave, key_id)
                &&& forall|other: int|
                    0 <= other < notes.len() && note_plays(#[trigger] notes[other], octave, key_id)
                        ==> rank(tie_break, notes[place]) < rank(tie_break, notes[other]) || (rank(
                        tie_break,
                        notes[place],
                    ) == rank(tie_break, notes[other]) && place <= other)
            },
            None => forall|other: int|
                0 <= other < notes.len() ==> !note_plays(#[trigger] notes[other], octave, key_id),
        },
    decreases notes.len(),
{
    if notes.len() > 0 {
        let front = notes.drop_last();
        lemma_struck_index(front, octave, key_id, tie_break);
        assert(forall|i: int| 0 <= i < front.len() ==> front[i] == notes[i]);
    }
}

/// A strike earns between nothing and the base score: the full score on or above the
/// line, nothing at the end of the error window and beyond it. What it earns is the
/// base score less the cost of the error held at the end of the window; within the
/// window that is the same as charging the error in full, and beyond it charging in
/// full would earn less than nothing.
pub proof fn lemma_score_bounds(position_y: int)
    ensures
        0 <= strike_score(position_y) <= BASE_SCORE,
        unclamped_score(position_y) <= BASE_SCORE,
        position_y >= WHITE_KEY_HEIGHT ==> strike_score(position_y) == BASE_SCORE,
        timing_error(position_y) >= MAX_ERROR_WINDOW ==> strike_score(position_y) == 0,
        timing_error(position_y) <= MAX_ERROR_WINDOW ==> strike_score(position_y)
            == unclamped_score(position_y),
        timing_error(position_y) > MAX_ERROR_WINDOW ==> unclamped_score(position_y) <= 0,
        strike_score(position_y) == BASE_SCORE - BASE_SCORE * clamped_error(position_y) / (
        MAX_ERROR_WINDOW as int),
{
    let error = timing_error(position_y);
    assert(1000 * 5_000_000int / 5_000_000 == 1000);
    assert(1000 * error / 5_000_000 >= 0) by (nonlinear_arith)
        requires
            error >= 0,
    ;
    if error >= 5_000_000 {
        assert(1000 * error / 5_000_000 >= 1000) by (nonlinear_arith)
            requires
                error >= 5_000_000,
        ;
    } else {
        assert(1000 * error / 5_000_000 <= 1000) by (nonlinear_arith)
            requires
                0 <= error < 5_000_000,
        ;
    }
}

/// Judging never lowers the score, whatever the notes and the key: the score after a
/// key event is at least the score before it, and so it is after a run of events.
pub proof fn lemma_score_never_falls(
    scene: Scene,
    octave: i32,
    tie_break: TieBreak,
    keys: Seq<MidiInputKey>,
)
    ensures
        scene.strike_all(octave, tie_break, keys).score >= scene.score,
    decreases keys.len(),
{
    if keys.len() > 0 {
        lemma_score_never_falls(scene, octave, tie_break, keys.drop_last());
        let before = scene.strike_all(octave, tie_break, keys.drop_last());
        match struck_index(before.notes, octave, keys.last().id, tie_break) {
            Some(place) => {
                lemma_score_bounds(before.notes[place].position_y as int);
            },
            None => {},
        }
    }
}

/// Judging keeps the live notes keyed by the chart and where the clock put them: a
/// strike takes one note away and leaves the others as they were, in their order.
pub proof fn lemma_strikes_keep_notes(
    scene: Scene,
    octave: i32,
    tie_break: TieBreak,
    keys: Seq<MidiInputKey>,
    chart: Seq<MusicTimelineItem>,
    state: MusicTimelineState,
)
    requires
        notes_orderly(scene.notes, chart, state),
        notes_settled(scene.notes, state),
    ensures
        notes_orderly(scene.strike_all(octave, tie_break, keys).notes, chart, state),
        notes_settled(scene.strike_all(octave, tie_break, keys).notes, state),
        scene.strike_all(octave, tie_break, keys).notes.len() <= scene.notes.len(),
    decreases keys.len(),
{
    if keys.len() > 0 {
        lemma_strikes_keep_notes(scene, octave, tie_break, keys.drop_last(), chart, state);
        let before = scene.strike_all(octave, tie_break, keys.drop_last());
        let after = before.strike(octave, tie_break, keys.last());
        lemma_struck_index(before.notes, octave, keys.last().id, tie_break);
        if keys.last().event.is_down() {
            match struck_index(before.notes, octave, keys.last().id, tie_break) {
                Some(place) => {
                    assert forall|i: int| 0 <= i < after.notes.len() implies #[trigger] after.notes[i]
                        == before.notes[if i < place {
                        i
                    } else {
                        i + 1
                    }] by {}
                    assert forall|i: int, j: int| 0 <= i < j < after.notes.len() implies (
                    #[trigger] after.notes[i]).id < (#[trigger] after.notes[j]).id by {
                        let from_i = if i < place {
                            i
                        } else {
                            i + 1
                        };
                        let from_j = if j < place {
                            j
                        } else {
                            j + 1
                        };
                        assert(before.notes[from_i].id < before.notes[from_j].id);
                    }
                },
                None => {},
            }
        }
    }
}

/// A run of key events that strikes nothing leaves the notes and the score as they are.
pub proof fn lemma_no_hit_no_change(
    scene: Scene,
    octave: i32,
    tie_break: TieBreak,
    keys: Seq<MidiInputKey>,
)
    requires
        scene.hits_of(octave, tie_break, keys).len() == 0,
    ensures
        scene.strike_all(octave, tie_break, keys) == scene,
    decreases keys.len(),
{
    if keys.len() > 0 {
        lemma_no_hit_no_change(scene, octave, tie_break, keys.drop_last());
    }
}

/// A key that plays no live note, and a key that goes up, leave the notes and the score
/// as they are.
pub proof fn lemma_miss_changes_nothing(
    scene: Scene,
    octave: i32,
    tie_break: TieBreak,
    key: MidiInputKey,
)
    requires
        !key.event.is_down() || forall|i: int|
            0 <= i < scene.notes.len() ==> !note_plays(#[trigger] scene.notes[i], octave, key.id),
    ensures
        scene.strike(octave, tie_break, key) == scene,
        scene.hit_of(octave, tie_break, key).is_none(),
{
    lemma_struck_index(scene.notes, octave, key.id, tie_break);
}

} // verus!
