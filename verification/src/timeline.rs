//! The chart of a session and the scheduler that turns it into falling notes.
//!
//! Times are in microseconds of the session clock, heights in millionths of the width of
//! a white key. A note appears at the top of the timeline when the clock reaches its
//! time and falls at a constant rate. Its height is always computed from the clock and
//! its time alone, never from where it was a tick before, so a paused clock, a slow frame
//! or a resumed session never displace a note.

use crate::keyboard::{key_position_x, key_type, key_type_at, layout_x, PianoKeyType};
use crate::midi::MidiInputState;
use crate::octave::{logical_key, logical_key_of};
use vstd::prelude::*;

verus! {

/// Height at which notes appear.
pub const TIMELINE_TOP: i128 = 30_000_000;

/// Height at which notes that nobody struck are taken away.
pub const TIMELINE_BOTTOM: i128 = 0;

/// Time that a note takes from the top of the timeline to its bottom.
pub const TIMELINE_LENGTH: u64 = 10_000_000;

/// Height that a note loses per microsecond: the top of the timeline over its length.
pub const TIMELINE_FALL_RATE: i128 = 3;

/// One entry of a chart.
#[derive(Clone, Copy, Debug, PartialEq, Eq, Structural)]
pub struct MusicTimelineItem {
    /// Clock time at which the note appears.
    pub time: u64,
    /// Device key that the note asks for, octave included.
    pub note: u8,
    /// Time for which the key should be held.
    pub length: u64,
}

/// What is wrong with a list of items that is no chart.
#[derive(Clone, Copy, Debug, PartialEq, Eq, Structural)]
pub enum ChartError {
    /// The item at `index` is not later than the item before it.
    OutOfOrder { index: usize },
}

/// The chart of a session: its items in the order in which they appear.
pub struct MusicTimeline {
    pub timeline: Vec<MusicTimelineItem>,
}

/// Every item is later than the one before it.
pub open spec fn chart_ordered(items: Seq<MusicTimelineItem>) -> bool {
    forall|i: int| 0 < i < items.len() ==> items[i - 1].time < #[trigger] items[i].time
}

/// The chart that is built in: three notes, one second apart.
pub open spec fn built_in_chart() -> Seq<MusicTimelineItem> {
    seq![
        MusicTimelineItem { time: 1_000_000, note: 38, length: 3_000_000 },
        MusicTimelineItem { time: 2_000_000, note: 39, length: 3_000_000 },
        MusicTimelineItem { time: 3_000_000, note: 40, length: 3_000_000 },
    ]
}

impl View for MusicTimeline {
    type V = Seq<MusicTimelineItem>;

    open spec fn view(&self) -> Seq<MusicTimelineItem> {
        self.timeline@
    }
}

impl MusicTimeline {
    /// Makes a chart of a list of items. The list is refused if an item is not later
    /// than the item before it; the error names the first such item.
    pub fn new(items: Vec<MusicTimelineItem>) -> (chart: Result<MusicTimeline, ChartError>)
        ensures
            match chart {
                Ok(timeline) => timeline@ == items@ && chart_ordered(items@),
                Err(ChartError::OutOfOrder { index }) => {
                    &&& 0 < index < items@.len()
                    &&& items@[index - 1].time >= items@[index as int].time
                    &&& chart_ordered(items@.take(index as int))
                },
            },
    {
        let mut index: usize = 1;
        while index < items.len()
            invariant
                1 <= index,
                forall|i: int| 0 < i < index && i < items@.len() ==> items@[i - 1].time < #[trigger] items@[i].time,
            decreases items.len() - index,
        {
            if items[index - 1].time >= items[index].time {
                return Err(ChartError::OutOfOrder { index });
            }
            index = index + 1;
        }
        Ok(MusicTimeline { timeline: items })
    }

    /// The chart that is built in.
    pub fn built_in() -> (chart: MusicTimeline)
        ensures
            chart@ == built_in_chart(),
            chart_ordered(chart@),
    {
        let mut timeline: Vec<MusicTimelineItem> = Vec::new();
        timeline.push(MusicTimelineItem { time: 1_000_000, note: 38, length: 3_000_000 });
        timeline.push(MusicTimelineItem { time: 2_000_000, note: 39, length: 3_000_000 });
        timeline.push(MusicTimelineItem { time: 3_000_000, note: 40, length: 3_000_000 });
        assert(timeline@ =~= built_in_chart());
        MusicTimeline { timeline }
    }

    /// Number of items of the chart.
    pub fn len(&self) -> (count: usize)
        ensures
            count == self@.len(),
    {
        self.timeline.len()
    }
}

/// In an ordered chart every item is later than all the items before it.
pub proof fn lemma_chart_ordered_pairwise(items: Seq<MusicTimelineItem>, i: int, j: int)
    requires
        chart_ordered(items),
        0 <= i < j < items.len(),
    ensures
        items[i].time < items[j].time,
    decreases j - i,
{
    if i + 1 < j {
        lemma_chart_ordered_pairwise(items, i, j - 1);
    }
}

/// Where a session stands.
#[derive(Clone, Copy, Debug, PartialEq, Eq, Structural)]
pub enum TimelinePhase {
    /// The clock is at zero and does not run.
    Idle,
    /// The clock runs and items are still to come.
    Playing,
    /// The clock is stopped in the middle of a session.
    Paused,
    /// Every item of the chart has appeared.
    Complete,
}

/// The cursor of the scheduler and its clock.
#[derive(Clone, Copy, Debug, PartialEq, Eq, Structural)]
pub struct MusicTimelineState {
    /// Index of the next item that has not appeared yet.
    pub current: usize,
    /// Whether the clock runs.
    pub playing: bool,
    /// Whether every item has appeared.
    pub complete: bool,
    /// The clock: time for which the session has been playing.
    pub timer: u64,
}

impl MusicTimelineState {
    /// The cursor is within a chart of `chart_len` items, and the session is marked
    /// complete exactly when the cursor has reached the end of the chart. Only a chart
    /// without items is at its end before the first tick has marked it so.
    pub open spec fn wf(self, chart_len: nat) -> bool {
        &&& self.current <= chart_len
        &&& self.complete ==> self.current == chart_len
        &&& self.current == chart_len && chart_len > 0 ==> self.complete
    }

    /// The state before a session: cursor and clock at zero, nothing running.
    pub open spec fn initial() -> MusicTimelineState {
        MusicTimelineState { current: 0, playing: false, complete: false, timer: 0 }
    }

    /// The phase that a state is in.
    pub open spec fn phase_of(self) -> TimelinePhase {
        if self.complete {
            TimelinePhase::Complete
        } else if self.playing {
            TimelinePhase::Playing
        } else if self.timer == 0 {
            TimelinePhase::Idle
        } else {
            TimelinePhase::Paused
        }
    }

    /// The state after `start`: an idle session begins to play, any other is left alone.
    pub open spec fn started(self) -> MusicTimelineState {
        if !self.playing && self.timer == 0 {
            MusicTimelineState { playing: true, ..self }
        } else {
            self
        }
    }

    /// The state after `pause`: the clock stops, the cursor stays.
    pub open spec fn paused(self) -> MusicTimelineState {
        MusicTimelineState { playing: false, ..self }
    }

    /// The state after `resume`: the clock runs again from where it stopped.
    pub open spec fn resumed(self) -> MusicTimelineState {
        MusicTimelineState { playing: true, ..self }
    }

    /// The state after the clock was offered `delta` more microseconds: a running clock
    /// takes them, up to the largest time it can hold, and a stopped one does not.
    pub open spec fn advanced(self, delta: u64) -> MusicTimelineState {
        if self.playing {
            MusicTimelineState {
                timer: if self.timer + delta > u64::MAX {
                    u64::MAX
                } else {
                    (self.timer + delta) as u64
                },
                ..self
            }
        } else {
            self
        }
    }

    /// Whether the next item of the chart appears now: the session plays, items are left,
    /// and the clock has reached the time of the next one.
    pub open spec fn spawn_due(self, chart: Seq<MusicTimelineItem>) -> bool {
        &&& self.playing
        &&& !self.complete
        &&& self.current < chart.len()
        &&& self.timer >= chart[self.current as int].time
    }

    /// The state after the scheduler looked at the chart once. At most one item appears;
    /// the cursor then moves past it, and the session is complete when the cursor has
    /// reached the end of the chart. A session that does not play, or is complete, is
    /// left alone.
    pub open spec fn scheduled(self, chart: Seq<MusicTimelineItem>) -> MusicTimelineState {
        if !self.playing || self.complete {
            self
        } else if self.current >= chart.len() {
            MusicTimelineState { complete: true, ..self }
        } else if self.timer >= chart[self.current as int].time {
            MusicTimelineState {
                current: (self.current + 1) as usize,
                complete: self.current + 1 == chart.len(),
                ..self
            }
        } else {
            self
        }
    }

    /// The state before a session.
    pub fn new() -> (state: MusicTimelineState)
        ensures
            state == MusicTimelineState::initial(),
    {
        MusicTimelineState { current: 0, playing: false, complete: false, timer: 0 }
    }

    /// Tells the phase of the session.
    pub fn phase(&self) -> (phase: TimelinePhase)
        ensures
            phase == self.phase_of(),
    {
        if self.complete {
            TimelinePhase::Complete
        } else if self.playing {
            TimelinePhase::Playing
        } else if self.timer == 0 {
            TimelinePhase::Idle
        } else {
            TimelinePhase::Paused
        }
    }

    /// Begins to play an idle session. A session that plays, or whose clock has moved,
    /// is left as it is.
    pub fn start(&mut self)
        ensures
            *final(self) == old(self).started(),
    {
        if !self.playing && self.timer == 0 {
            self.playing = true;
        }
    }

    /// Stops the clock. The cursor and the time stay as they are.
    pub fn pause(&mut self)
        ensures
            *final(self) == old(self).paused(),
    {
        self.playing = false;
    }

    /// Lets the clock run again from where it was stopped.
    pub fn resume(&mut self)
        ensures
            *final(self) == old(self).resumed(),
    {
        self.playing = true;
    }

    /// Goes back to the state before a session: cursor and clock at zero, nothing running.
    pub fn reset(&mut self)
        ensures
            *final(self) == MusicTimelineState::initial(),
    {
        self.playing = false;
        self.complete = false;
        self.current = 0;
        self.timer = 0;
    }

    /// Offers the clock the time that has passed since the last tick.
    pub fn advance(&mut self, delta: u64)
        ensures
            *final(self) == old(self).advanced(delta),
    {
        if self.playing {
            self.timer = self.timer.saturating_add(delta);
        }
    }
}

/// A note that is falling.
#[derive(Clone, Copy, Debug, PartialEq, Eq, Structural)]
pub struct TimelineNote {
    /// Index of the chart item that the note came from. No two notes of a session share it.
    pub id: usize,
    /// Clock time at which the note was due to appear.
    pub scheduled_time: u64,
    /// Key of the drawn keyboard above which the note falls.
    pub logical_key: i64,
    /// Colour of that key.
    pub key_type: PianoKeyType,
    /// Where the note is from left to right.
    pub position_x: i128,
    /// How high the note is.
    pub position_y: i128,
}

/// The height of a note that was due at `scheduled_time`, when the clock shows `elapsed`.
pub open spec fn position_at(scheduled_time: int, elapsed: int) -> int {
    (scheduled_time - elapsed) * TIMELINE_TOP / (TIMELINE_LENGTH as int) + TIMELINE_TOP
}

/// The note that a chart item becomes when it appears: above the key that the item asks
/// for under the octave setting of that moment, at the top of the timeline.
pub open spec fn spawned_note(index: usize, item: MusicTimelineItem, octave: i32) -> TimelineNote {
    let key = logical_key_of(item.note as int, octave as int);
    TimelineNote {
        id: index,
        scheduled_time: item.time,
        logical_key: key as i64,
        key_type: key_type_at(key),
        position_x: layout_x(key) as i128,
        position_y: TIMELINE_TOP,
    }
}

/// A note at the height that the clock gives it.
pub open spec fn placed(note: TimelineNote, elapsed: u64) -> TimelineNote {
    TimelineNote {
        position_y: position_at(note.scheduled_time as int, elapsed as int) as i128,
        ..note
    }
}

/// All notes at the heights that the clock gives them.
pub open spec fn animated(notes: Seq<TimelineNote>, elapsed: u64) -> Seq<TimelineNote> {
    Seq::new(notes.len(), |i: int| placed(notes[i], elapsed))
}

/// Whether a note has reached the bottom of the timeline.
pub open spec fn has_fallen(note: TimelineNote) -> bool {
    note.position_y <= TIMELINE_BOTTOM
}

/// The notes that have not reached the bottom, in their order.
pub open spec fn live_notes(notes: Seq<TimelineNote>) -> Seq<TimelineNote>
    decreases notes.len(),
{
    if notes.len() == 0 {
        Seq::empty()
    } else if has_fallen(notes.last()) {
        live_notes(notes.drop_last())
    } else {
        live_notes(notes.drop_last()).push(notes.last())
    }
}

/// The notes that have reached the bottom, in their order.
pub open spec fn fallen_notes(notes: Seq<TimelineNote>) -> Seq<TimelineNote>
    decreases notes.len(),
{
    if notes.len() == 0 {
        Seq::empty()
    } else if has_fallen(notes.last()) {
        fallen_notes(notes.drop_last()).push(notes.last())
    } else {
        fallen_notes(notes.drop_last())
    }
}

/// The notes after the scheduler looked at the chart once: the note of the next item is
/// added at the end if that item appears now.
pub open spec fn notes_after_spawn(
    chart: Seq<MusicTimelineItem>,
    octave: i32,
    state: MusicTimelineState,
    notes: Seq<TimelineNote>,
) -> Seq<TimelineNote> {
    if state.spawn_due(chart) {
        notes.push(spawned_note(state.current, chart[state.current as int], octave))
    } else {
        notes
    }
}

/// The live notes are keyed by the chart: they stand in the order of the items that
/// they came from, no two came from the same item, each came from an item that the
/// cursor has passed, and none is ahead of the clock.
pub open spec fn notes_orderly(
    notes: Seq<TimelineNote>,
    chart: Seq<MusicTimelineItem>,
    state: MusicTimelineState,
) -> bool {
    &&& forall|i: int, j: int|
        0 <= i < j < notes.len() ==> (#[trigger] notes[i]).id < (#[trigger] notes[j]).id
    &&& forall|i: int|
        0 <= i < notes.len() ==> {
            &&& (#[trigger] notes[i]).id < state.current
            &&& notes[i].id < chart.len()
            &&& notes[i].scheduled_time == chart[notes[i].id as int].time
            &&& notes[i].scheduled_time <= state.timer
        }
}

/// Every live note is at the height that the clock gives it, above the bottom of the
/// timeline and not above its top.
pub open spec fn notes_settled(notes: Seq<TimelineNote>, state: MusicTimelineState) -> bool {
    forall|i: int|
        0 <= i < notes.len() ==> {
            &&& (#[trigger] notes[i]).position_y == position_at(
                notes[i].scheduled_time as int,
                state.timer as int,
            )
            &&& TIMELINE_BOTTOM < notes[i].position_y <= TIMELINE_TOP
        }
}

/// The height of a note is its fall rate times the time that is left until it is due,
/// above the top of the timeline.
pub proof fn lemma_position_linear(scheduled_time: int, elapsed: int)
    ensures
        position_at(scheduled_time, elapsed) == TIMELINE_TOP + TIMELINE_FALL_RATE * (scheduled_time
            - elapsed),
{
    let remaining = scheduled_time - elapsed;
    assert(remaining * 30_000_000 / 10_000_000 == 3 * remaining) by (nonlinear_arith);
}

/// Computes the height of a note from the time at which it was due and the clock.
pub fn note_position_y(scheduled_time: u64, elapsed: u64) -> (position_y: i128)
    ensures
        position_y == position_at(scheduled_time as int, elapsed as int),
{
    proof {
        lemma_position_linear(scheduled_time as int, elapsed as int);
    }
    let remaining: i128 = scheduled_time as i128 - elapsed as i128;
    TIMELINE_TOP + TIMELINE_FALL_RATE * remaining
}

/// The spawn step of a tick: if the session plays and the clock has reached the time of
/// the next chart item, the note of that item is added to the live notes and the cursor
/// moves on. Returns the note that appeared, if one did.
pub fn spawn_music_timeline(
    timeline: &MusicTimeline,
    midi_state: &MidiInputState,
    timeline_state: &mut MusicTimelineState,
    notes: &mut Vec<TimelineNote>,
) -> (spawned: Option<TimelineNote>)
    ensures
        *final(timeline_state) == old(timeline_state).scheduled(timeline@),
        final(notes)@ == notes_after_spawn(
            timeline@,
            midi_state.octave,
            *old(timeline_state),
            old(notes)@,
        ),
        old(timeline_state).spawn_due(timeline@) ==> spawned == Some(
            spawned_note(
                old(timeline_state).current,
                timeline@[old(timeline_state).current as int],
                midi_state.octave,
            ),
        ),
        !old(timeline_state).spawn_due(timeline@) ==> spawned.is_none(),
{
    if !timeline_state.playing || timeline_state.complete {
        return None;
    }
    if timeline_state.current >= timeline.timeline.len() {
        timeline_state.complete = true;
        return None;
    }
    let current_item = timeline.timeline[timeline_state.current];
    if timeline_state.timer < current_item.time {
        return None;
    }
    let real_index = logical_key(current_item.note, midi_state.octave);
    let note = TimelineNote {
        id: timeline_state.current,
        scheduled_time: current_item.time,
        logical_key: real_index,
        key_type: key_type(real_index),
        position_x: key_position_x(real_index),
        position_y: TIMELINE_TOP,
    };
    notes.push(note);
    let next_index = timeline_state.current + 1;
    timeline_state.current = next_index;
    timeline_state.complete = next_index == timeline.timeline.len();
    Some(note)
}

/// The fall step of a tick: every live note is put at the height that the clock gives it.
pub fn animate_music_timeline(notes: &mut Vec<TimelineNote>, timeline_state: &MusicTimelineState)
    ensures
        final(notes)@ == animated(old(notes)@, timeline_state.timer),
{
    let current_time = timeline_state.timer;
    let mut index: usize = 0;
    while index < notes.len()
        invariant
            index <= notes@.len(),
            notes@.len() == old(notes)@.len(),
            forall|i: int| 0 <= i < index ==> notes@[i] == placed(old(notes)@[i], current_time),
            forall|i: int| index <= i < notes@.len() ==> notes@[i] == old(notes)@[i],
        decreases notes@.len() - index,
    {
        let note = notes[index];
        let moved = TimelineNote {
            position_y: note_position_y(note.scheduled_time, current_time),
            ..note
        };
        notes.set(index, moved);
        index = index + 1;
    }
    assert(notes@ =~= animated(old(notes)@, current_time));
}

/// The last step of a tick: notes that have reached the bottom of the timeline are taken
/// away. Returns them; the others stay in their order.
pub fn clear_complete_timeline_notes(notes: &mut Vec<TimelineNote>) -> (missed: Vec<TimelineNote>)
    ensures
        final(notes)@ == live_notes(old(notes)@),
        missed@ == fallen_notes(old(notes)@),
{
    let mut kept: Vec<TimelineNote> = Vec::new();
    let mut missed: Vec<TimelineNote> = Vec::new();
    let mut index: usize = 0;
    proof {
        assert(notes@.take(0) =~= Seq::empty());
    }
    while index < notes.len()
        invariant
            index <= notes@.len(),
            notes@ == old(notes)@,
            kept@ == live_notes(notes@.take(index as int)),
            missed@ == fallen_notes(notes@.take(index as int)),
        decreases notes@.len() - index,
    {
        let note = notes[index];
        proof {
            let next = notes@.take(index + 1);
            assert(next.drop_last() =~= notes@.take(index as int));
            assert(next.last() == note);
        }
        if note.position_y <= TIMELINE_BOTTOM {
            missed.push(note);
        } else {
            kept.push(note);
        }
        index = index + 1;
    }
    proof {
        assert(notes@.take(notes@.len() as int) =~= notes@);
    }
    *notes = kept;
    missed
}

/// Every live note is one of the notes, and none of the live notes has fallen.
pub proof fn lemma_live_notes_members(notes: Seq<TimelineNote>)
    ensures
        live_notes(notes).len() + fallen_notes(notes).len() == notes.len(),
        forall|i: int|
            0 <= i < live_notes(notes).len() ==> !has_fallen(#[trigger] live_notes(notes)[i])
                && notes.contains(live_notes(notes)[i]),
        forall|i: int|
            0 <= i < fallen_notes(notes).len() ==> has_fallen(#[trigger] fallen_notes(notes)[i])
                && notes.contains(fallen_notes(notes)[i]),
    decreases notes.len(),
{
    if notes.len() > 0 {
        let front = notes.drop_last();
        lemma_live_notes_members(front);
        assert(forall|i: int| 0 <= i < front.len() ==> front[i] == notes[i]);
        assert forall|i: int| 0 <= i < live_notes(notes).len() implies !has_fallen(
            #[trigger] live_notes(notes)[i],
        ) && notes.contains(live_notes(notes)[i]) by {
            if i < live_notes(front).len() {
                let j = choose|j: int| 0 <= j < front.len() && front[j] == live_notes(front)[i];
                assert(notes[j] == live_notes(notes)[i]);
            } else {
                assert(notes[notes.len() - 1] == live_notes(notes)[i]);
            }
        }
        assert forall|i: int| 0 <= i < fallen_notes(notes).len() implies has_fallen(
            #[trigger] fallen_notes(notes)[i],
        ) && notes.contains(fallen_notes(notes)[i]) by {
            if i < fallen_notes(front).len() {
                let j = choose|j: int| 0 <= j < front.len() && front[j] == fallen_notes(front)[i];
                assert(notes[j] == fallen_notes(notes)[i]);
            } else {
                assert(notes[notes.len() - 1] == fallen_notes(notes)[i]);
            }
        }
    }
}

/// After a tick every live note is above the bottom of the timeline, at the height
/// that the clock and its own time give it, whatever the heights were before.
pub proof fn lemma_tick_places_notes(
    chart: Seq<MusicTimelineItem>,
    octave: i32,
    state: MusicTimelineState,
    notes: Seq<TimelineNote>,
    delta: u64,
)
    ensures
        forall|i: int|
            #![trigger live_notes(notes_in_flight(chart, octave, state, notes, delta))[i]]
            0 <= i < live_notes(notes_in_flight(chart, octave, state, notes, delta)).len() ==> {
                let note = live_notes(notes_in_flight(chart, octave, state, notes, delta))[i];
                &&& note.position_y == position_at(
                    note.scheduled_time as int,
                    state.advanced(delta).scheduled(chart).timer as int,
                )
                &&& note.position_y > TIMELINE_BOTTOM
            },
{
    let flight = notes_in_flight(chart, octave, state, notes, delta);
    let clock = state.advanced(delta).timer;
    lemma_live_notes_members(flight);
    assert forall|i: int| 0 <= i < live_notes(flight).len() implies {
        let note = #[trigger] live_notes(flight)[i];
        &&& note.position_y == position_at(note.scheduled_time as int, clock as int)
        &&& note.position_y > TIMELINE_BOTTOM
    } by {
        let note = live_notes(flight)[i];
        let j = choose|j: int| 0 <= j < flight.len() && flight[j] == note;
        lemma_position_linear(flight[j].scheduled_time as int, clock as int);
    }
}

/// Taking away the notes at the bottom leaves the others keyed by the chart.
pub proof fn lemma_live_notes_orderly(
    notes: Seq<TimelineNote>,
    chart: Seq<MusicTimelineItem>,
    state: MusicTimelineState,
)
    requires
        notes_orderly(notes, chart, state),
    ensures
        notes_orderly(live_notes(notes), chart, state),
    decreases notes.len(),
{
    if notes.len() > 0 {
        let front = notes.drop_last();
        assert(forall|i: int| 0 <= i < front.len() ==> front[i] == notes[i]);
        lemma_live_notes_orderly(front, chart, state);
        lemma_live_notes_members(front);
        if !has_fallen(notes.last()) {
            let live = live_notes(notes);
            assert forall|i: int, j: int| 0 <= i < j < live.len() implies (#[trigger] live[i]).id
                < (#[trigger] live[j]).id by {
                if j == live.len() - 1 {
                    let k = choose|k: int| 0 <= k < front.len() && front[k] == live_notes(front)[i];
                    assert(notes[k].id < notes[notes.len() - 1].id);
                } else {
                    assert(live[i] == live_notes(front)[i]);
                    assert(live[j] == live_notes(front)[j]);
                }
            }
            assert forall|i: int| 0 <= i < live.len() implies {
                &&& (#[trigger] live[i]).id < state.current
                &&& live[i].id < chart.len()
                &&& live[i].scheduled_time == chart[live[i].id as int].time
                &&& live[i].scheduled_time <= state.timer
            } by {
                if i == live.len() - 1 {
                    assert(live[i] == notes[notes.len() - 1]);
                } else {
                    assert(live[i] == live_notes(front)[i]);
                }
            }
        }
    }
}

/// A tick keeps the live notes keyed by the chart and leaves each of them at the
/// height that the clock gives it, between the bottom of the timeline and its top.
pub proof fn lemma_tick_keeps_notes(
    chart: Seq<MusicTimelineItem>,
    octave: i32,
    state: MusicTimelineState,
    notes: Seq<TimelineNote>,
    delta: u64,
)
    requires
        state.wf(chart.len()),
        chart.len() <= usize::MAX,
        notes_orderly(notes, chart, state),
    ensures
        notes_orderly(
            live_notes(notes_in_flight(chart, octave, state, notes, delta)),
            chart,
            state.advanced(delta).scheduled(chart),
        ),
        notes_settled(
            live_notes(notes_in_flight(chart, octave, state, notes, delta)),
            state.advanced(delta).scheduled(chart),
        ),
{
    let moved = state.advanced(delta);
    let next = moved.scheduled(chart);
    let spawned = notes_after_spawn(chart, octave, moved, notes);
    let flight = notes_in_flight(chart, octave, state, notes, delta);
    assert(notes_orderly(spawned, chart, next)) by {
        assert forall|i: int, j: int| 0 <= i < j < spawned.len() implies (#[trigger] spawned[i]).id
            < (#[trigger] spawned[j]).id by {
            if j < notes.len() {
                assert(spawned[i] == notes[i] && spawned[j] == notes[j]);
            } else {
                assert(spawned[i] == notes[i]);
            }
        }
        assert forall|i: int| 0 <= i < spawned.len() implies {
            &&& (#[trigger] spawned[i]).id < next.current
            &&& spawned[i].id < chart.len()
            &&& spawned[i].scheduled_time == chart[spawned[i].id as int].time
            &&& spawned[i].scheduled_time <= next.timer
        } by {
            if i < notes.len() {
                assert(spawned[i] == notes[i]);
            }
        }
    }
    assert(notes_orderly(flight, chart, next)) by {
        assert forall|i: int, j: int| 0 <= i < j < flight.len() implies (#[trigger] flight[i]).id
            < (#[trigger] flight[j]).id by {
            assert(spawned[i].id < spawned[j].id);
        }
        assert forall|i: int| 0 <= i < flight.len() implies {
            &&& (#[trigger] flight[i]).id < next.current
            &&& flight[i].id < chart.len()
            &&& flight[i].scheduled_time == chart[flight[i].id as int].time
            &&& flight[i].scheduled_time <= next.timer
        } by {
            assert(spawned[i].id < next.current);
        }
    }
    lemma_live_notes_orderly(flight, chart, next);
    lemma_live_notes_members(flight);
    let live = live_notes(flight);
    assert forall|i: int| 0 <= i < live.len() implies {
        &&& (#[trigger] live[i]).position_y == position_at(
            live[i].scheduled_time as int,
            next.timer as int,
        )
        &&& TIMELINE_BOTTOM < live[i].position_y <= TIMELINE_TOP
    } by {
        let k = choose|k: int| 0 <= k < flight.len() && flight[k] == live[i];
        assert(spawned[k].scheduled_time <= next.timer);
        lemma_position_linear(flight[k].scheduled_time as int, next.timer as int);
    }
}

/// A pause does not show in the clock: a session that is paused and resumed between
/// two stretches of play ends in the same state as one that went on playing without
/// a break, however long the pause was. Every note then has the same height in both.
pub proof fn lemma_pause_keeps_time(
    state: MusicTimelineState,
    first: u64,
    pause: u64,
    second: u64,
    note: TimelineNote,
)
    ensures
        state.advanced(first).paused().advanced(pause).resumed().advanced(second)
            == state.advanced(first).resumed().advanced(second),
        state.playing ==> state.advanced(first).paused().advanced(pause).resumed().advanced(second)
            == state.advanced(first).advanced(second),
        placed(
            note,
            state.advanced(first).paused().advanced(pause).resumed().advanced(second).timer,
        ) == placed(note, state.advanced(first).resumed().advanced(second).timer),
{
}

/// Only a reset moves the cursor back. Starting, pausing, resuming and ticking leave it
/// where it is or move it one item on, never past the end of the chart; a tick marks
/// a session that plays complete exactly when the cursor has reached the end of the
/// chart, and a session that is complete stays so until it is reset.
pub proof fn lemma_cursor_monotonic(
    state: MusicTimelineState,
    chart: Seq<MusicTimelineItem>,
    delta: u64,
)
    requires
        state.wf(chart.len()),
        chart.len() <= usize::MAX,
    ensures
        state.started().current == state.current,
        state.paused().current == state.current,
        state.resumed().current == state.current,
        state.advanced(delta).current == state.current,
        state.current <= state.advanced(delta).scheduled(chart).current <= state.current + 1,
        state.started().wf(chart.len()),
        state.paused().wf(chart.len()),
        state.resumed().wf(chart.len()),
        state.advanced(delta).scheduled(chart).wf(chart.len()),
        state.playing && !state.complete ==> (state.advanced(delta).scheduled(chart).complete
            <==> state.advanced(delta).scheduled(chart).current == chart.len()),
        state.complete ==> state.advanced(delta).scheduled(chart).complete,
{
}

/// An item appears no earlier than its time: whenever a tick lets the next item
/// appear, the clock has reached the time of that item.
pub proof fn lemma_spawn_on_time(
    state: MusicTimelineState,
    chart: Seq<MusicTimelineItem>,
    delta: u64,
)
    requires
        state.advanced(delta).spawn_due(chart),
        chart.len() <= usize::MAX,
    ensures
        state.advanced(delta).scheduled(chart).current == state.current + 1,
        state.advanced(delta).scheduled(chart).timer >= chart[state.current as int].time,
        position_at(
            chart[state.current as int].time as int,
            state.advanced(delta).scheduled(chart).timer as int,
        ) <= TIMELINE_TOP,
{
    lemma_position_linear(
        chart[state.current as int].time as int,
        state.advanced(delta).timer as int,
    );
}

/// What one tick of the scheduler did to the scene.
pub struct TimelineTick {
    /// The note that appeared in this tick, if one did.
    pub spawned: Option<TimelineNote>,
    /// The notes that reached the bottom in this tick and were taken away.
    pub missed: Vec<TimelineNote>,
}

/// The live notes after one tick of the scheduler, before those at the bottom are taken
/// away: the clock has moved, the item that is due has appeared, and every note is
/// at the height that the clock gives it.
pub open spec fn notes_in_flight(
    chart: Seq<MusicTimelineItem>,
    octave: i32,
    state: MusicTimelineState,
    notes: Seq<TimelineNote>,
    delta: u64,
) -> Seq<TimelineNote> {
    animated(
        notes_after_spawn(chart, octave, state.advanced(delta), notes),
        state.advanced(delta).timer,
    )
}

/// One tick of the scheduler: the clock takes the time that has passed, the chart item
/// that is due appears, every note falls to the height that the clock gives it, and the
/// notes that have reached the bottom are taken away.
pub fn tick_timeline(
    timeline: &MusicTimeline,
    midi_state: &MidiInputState,
    timeline_state: &mut MusicTimelineState,
    notes: &mut Vec<TimelineNote>,
    delta: u64,
) -> (tick: TimelineTick)
    ensures
        *final(timeline_state) == old(timeline_state).advanced(delta).scheduled(timeline@),
        final(notes)@ == live_notes(
            notes_in_flight(timeline@, midi_state.octave, *old(timeline_state), old(notes)@, delta),
        ),
        tick.missed@ == fallen_notes(
            notes_in_flight(timeline@, midi_state.octave, *old(timeline_state), old(notes)@, delta),
        ),
        old(timeline_state).advanced(delta).spawn_due(timeline@) ==> tick.spawned == Some(
            spawned_note(
                old(timeline_state).current,
                timeline@[old(timeline_state).current as int],
                midi_state.octave,
            ),
        ),
        !old(timeline_state).advanced(delta).spawn_due(timeline@) ==> tick.spawned.is_none(),
{
    timeline_state.advance(delta);
    let spawned = spawn_music_timeline(timeline, midi_state, timeline_state, notes);
    animate_music_timeline(notes, timeline_state);
    let missed = clear_complete_timeline_notes(notes);
    TimelineTick { spawned, missed }
}

} // verus!
