//! The whole state of a session and its tick.
//!
//! The game loop owns one [`SimulationState`]. Once per frame it takes out of the bridge
//! what has arrived and hands the simulation the time that has passed. A tick lets the
//! scheduler move the clock, show the chart item that is due and take away the notes
//! that fell through, and then judges the key events of the tick against the notes that
//! are left. Starting, pausing, resuming and resetting a session happen between ticks.

use crate::judgment::{
    check_timeline_collisions, lemma_no_hit_no_change, lemma_score_never_falls,
    lemma_strikes_keep_notes, GameState, Scene, TieBreak, TimelineHit,
};
use crate::midi::{
    broadcasts, lemma_history_bounded, MidiInputKey, MidiInputState, MidiInputStateView,
    MidiResponse,
};
use crate::reader::{sync_keys, MidiInputReader};
use crate::timeline::{
    fallen_notes, lemma_cursor_monotonic, lemma_tick_keeps_notes, live_notes, notes_in_flight,
    notes_orderly, notes_settled, spawned_note, tick_timeline, MusicTimeline, MusicTimelineItem,
    MusicTimelineState, TimelineNote,
};
use vstd::prelude::*;

verus! {

/// Everything that a session holds.
pub struct SimulationState {
    /// What is known of the input device.
    pub midi_state: MidiInputState,
    /// The score.
    pub game_state: GameState,
    /// The cursor and the clock of the scheduler.
    pub timeline_state: MusicTimelineState,
    /// The notes that are falling, in the order in which they appeared.
    pub notes: Vec<TimelineNote>,
    /// Which note a key strikes when several ask for it.
    pub tie_break: TieBreak,
}

/// The mathematical value of a [`SimulationState`].
pub struct SimulationView {
    pub midi_state: MidiInputStateView,
    pub score: u64,
    pub timeline_state: MusicTimelineState,
    pub notes: Seq<TimelineNote>,
    pub tie_break: TieBreak,
}

/// What a tick did, for those who draw the scene.
pub struct TickReport {
    /// The note that appeared, if one did.
    pub spawned: Option<TimelineNote>,
    /// The notes that fell through unstruck and were taken away.
    pub missed: Vec<TimelineNote>,
    /// The strikes, in the order of the key events that made them.
    pub hits: Vec<TimelineHit>,
}

/// What one step of the game loop did.
pub struct StepReport {
    /// The messages that were taken out of the bridge, in the order of arrival.
    pub messages: Vec<MidiResponse>,
    /// The key events among them.
    pub events: Vec<MidiInputKey>,
    /// What the tick on those key events did.
    pub tick: TickReport,
}

impl SimulationView {
    /// The state before the first session.
    pub open spec fn initial(tie_break: TieBreak) -> SimulationView {
        SimulationView {
            midi_state: MidiInputStateView::initial(),
            score: 0,
            timeline_state: MusicTimelineState::initial(),
            notes: Seq::empty(),
            tie_break,
        }
    }

    /// The history of keys is within its bound, the cursor within the chart, and the
    /// live notes are keyed by the chart.
    pub open spec fn wf(self, chart: Seq<MusicTimelineItem>) -> bool {
        &&& self.midi_state.wf()
        &&& self.timeline_state.wf(chart.len())
        &&& notes_orderly(self.notes, chart, self.timeline_state)
    }

    /// Every live note is at the height that the clock gives it, between the bottom
    /// of the timeline and its top.
    pub open spec fn settled(self) -> bool {
        notes_settled(self.notes, self.timeline_state)
    }

    /// The state after a reset: the scheduler is back before the session, the score is
    /// zero and no note is left. What is known of the input device stays.
    pub open spec fn cleared(self) -> SimulationView {
        SimulationView {
            score: 0,
            timeline_state: MusicTimelineState::initial(),
            notes: Seq::empty(),
            ..self
        }
    }

    /// The state after messages from the device side were taken in.
    pub open spec fn synced(self, messages: Seq<MidiResponse>) -> SimulationView {
        SimulationView { midi_state: self.midi_state.apply_all(messages), ..self }
    }

    /// The notes of a tick when the scheduler has done its part and before the keys
    /// are judged: those that have fallen through are still among them.
    pub open spec fn in_flight(self, chart: Seq<MusicTimelineItem>, delta: u64) -> Seq<
        TimelineNote,
    > {
        notes_in_flight(chart, self.midi_state.octave, self.timeline_state, self.notes, delta)
    }

    /// The notes and the score of a tick when the scheduler has done its part.
    pub open spec fn scene(self, chart: Seq<MusicTimelineItem>, delta: u64) -> Scene {
        Scene { notes: live_notes(self.in_flight(chart, delta)), score: self.score }
    }

    /// The strikes of a tick.
    pub open spec fn hits(self, chart: Seq<MusicTimelineItem>, delta: u64, keys: Seq<MidiInputKey>) -> Seq<
        TimelineHit,
    > {
        self.scene(chart, delta).hits_of(self.midi_state.octave, self.tie_break, keys)
    }

    /// The state after a tick in which `delta` microseconds have passed and the key
    /// events `keys` are judged.
    pub open spec fn ticked(
        self,
        chart: Seq<MusicTimelineItem>,
        delta: u64,
        keys: Seq<MidiInputKey>,
    ) -> SimulationView {
        let judged = self.scene(chart, delta).strike_all(
            self.midi_state.octave,
            self.tie_break,
            keys,
        );
        SimulationView {
            score: judged.score,
            timeline_state: self.timeline_state.advanced(delta).scheduled(chart),
            notes: judged.notes,
            ..self
        }
    }
}

impl View for SimulationState {
    type V = SimulationView;

    open spec fn view(&self) -> SimulationView {
        SimulationView {
            midi_state: self.midi_state@,
            score: self.game_state.score,
            timeline_state: self.timeline_state,
            notes: self.notes@,
            tie_break: self.tie_break,
        }
    }
}

impl SimulationState {
    /// The state before the first session.
    pub fn new(tie_break: TieBreak) -> (state: SimulationState)
        ensures
            state@ == SimulationView::initial(tie_break),
    {
        SimulationState {
            midi_state: MidiInputState::new(),
            game_state: GameState::new(),
            timeline_state: MusicTimelineState::new(),
            notes: Vec::new(),
            tie_break,
        }
    }

    /// Begins to play an idle session.
    pub fn start(&mut self)
        ensures
            final(self)@ == (SimulationView {
                timeline_state: old(self)@.timeline_state.started(),
                ..old(self)@
            }),
    {
        self.timeline_state.start();
    }

    /// Stops the clock; notes stay where they are.
    pub fn pause(&mut self)
        ensures
            final(self)@ == (SimulationView {
                timeline_state: old(self)@.timeline_state.paused(),
                ..old(self)@
            }),
    {
        self.timeline_state.pause();
    }

    /// Lets the clock run again.
    pub fn resume(&mut self)
        ensures
            final(self)@ == (SimulationView {
                timeline_state: old(self)@.timeline_state.resumed(),
                ..old(self)@
            }),
    {
        self.timeline_state.resume();
    }

    /// Ends the session: cursor and clock go back to zero, the clock stops, the score
    /// is zero again and every live note is taken away.
    pub fn reset(&mut self)
        ensures
            final(self)@ == old(self)@.cleared(),
            final(self)@.timeline_state.current == 0,
            !final(self)@.timeline_state.complete,
            !final(self)@.timeline_state.playing,
            final(self)@.score == 0,
            final(self)@.notes.len() == 0,
    {
        self.timeline_state.reset();
        self.game_state.reset();
        self.notes.clear();
    }

    /// Takes out of the bridge what has arrived and folds it into the input state.
    /// Returns the messages, and the key events among them.
    pub fn sync(&mut self, input_reader: &mut MidiInputReader) -> (taken: (
        Vec<MidiResponse>,
        Vec<MidiInputKey>,
    ))
        ensures
            final(input_reader).taken() == old(input_reader).taken() + taken.0@,
            final(self)@ == old(self)@.synced(taken.0@),
            taken.1@ == broadcasts(taken.0@),
            final(self)@.midi_state.octave == old(self)@.midi_state.octave,
    {
        let synced = sync_keys(input_reader, &mut self.midi_state);
        (synced.messages, synced.events)
    }

    /// One tick on the key events of this frame: the scheduler moves the clock, shows
    /// the item that is due, lets every note fall and takes away those at the bottom;
    /// then the key events are judged, in their order, against the notes that are left.
    pub fn tick(&mut self, timeline: &MusicTimeline, delta: u64, key_events: &Vec<MidiInputKey>) -> (report:
        TickReport)
        ensures
            final(self)@ == old(self)@.ticked(timeline@, delta, key_events@),
            report.missed@ == fallen_notes(old(self)@.in_flight(timeline@, delta)),
            report.hits@ == old(self)@.hits(timeline@, delta, key_events@),
            old(self)@.timeline_state.advanced(delta).spawn_due(timeline@) ==> report.spawned
                == Some(
                spawned_note(
                    old(self)@.timeline_state.current,
                    timeline@[old(self)@.timeline_state.current as int],
                    old(self)@.midi_state.octave,
                ),
            ),
            !old(self)@.timeline_state.advanced(delta).spawn_due(timeline@)
                ==> report.spawned.is_none(),
            final(self)@.score >= old(self)@.score,
    {
        let scheduled = tick_timeline(
            timeline,
            &self.midi_state,
            &mut self.timeline_state,
            &mut self.notes,
            delta,
        );
        let hits = check_timeline_collisions(
            key_events,
            &self.midi_state,
            self.tie_break,
            &mut self.notes,
            &mut self.game_state,
        );
        TickReport { spawned: scheduled.spawned, missed: scheduled.missed, hits }
    }

    /// One step of the game loop: takes out of the bridge what has arrived, folds it
    /// into the input state, and ticks on the key events that came.
    pub fn step(
        &mut self,
        timeline: &MusicTimeline,
        input_reader: &mut MidiInputReader,
        delta: u64,
    ) -> (done: StepReport)
        ensures
            final(input_reader).taken() == old(input_reader).taken() + done.messages@,
            final(self)@ == old(self)@.synced(done.messages@).ticked(
                timeline@,
                delta,
                done.events@,
            ),
            done.events@ == broadcasts(done.messages@),
            done.tick.missed@ == fallen_notes(old(self)@.in_flight(timeline@, delta)),
            done.tick.hits@ == old(self)@.hits(timeline@, delta, done.events@),
            final(self)@.score >= old(self)@.score,
    {
        let (messages, events) = self.sync(input_reader);
        let tick = self.tick(timeline, delta, &events);
        StepReport { messages, events, tick }
    }
}

/// The state before the first session is in order, and so is the state after a reset.
pub proof fn lemma_fresh_state_in_order(
    state: SimulationView,
    chart: Seq<MusicTimelineItem>,
    tie_break: TieBreak,
)
    requires
        state.midi_state.wf(),
    ensures
        SimulationView::initial(tie_break).wf(chart),
        SimulationView::initial(tie_break).settled(),
        state.cleared().wf(chart),
        state.cleared().settled(),
{
}

/// Starting, pausing and resuming a session, and taking messages in, keep the state
/// in order and every note where it is.
pub proof fn lemma_controls_keep_order(
    state: SimulationView,
    chart: Seq<MusicTimelineItem>,
    messages: Seq<MidiResponse>,
)
    requires
        state.wf(chart),
    ensures
        (SimulationView { timeline_state: state.timeline_state.started(), ..state }).wf(chart),
        (SimulationView { timeline_state: state.timeline_state.paused(), ..state }).wf(chart),
        (SimulationView { timeline_state: state.timeline_state.resumed(), ..state }).wf(chart),
        state.synced(messages).wf(chart),
        state.synced(messages).midi_state.octave == state.midi_state.octave,
        state.settled() ==> (SimulationView {
            timeline_state: state.timeline_state.started(),
            ..state
        }).settled(),
        state.settled() ==> (SimulationView {
            timeline_state: state.timeline_state.paused(),
            ..state
        }).settled(),
        state.settled() ==> (SimulationView {
            timeline_state: state.timeline_state.resumed(),
            ..state
        }).settled(),
        state.settled() ==> state.synced(messages).settled(),
{
    lemma_history_bounded(state.midi_state, messages);
}

/// A tick keeps the state in order: the cursor stays within the chart and never moves
/// back, the score never falls, and the live notes stay keyed by the chart. After a
/// tick every live note is at the height that the clock gives it, between the bottom
/// of the timeline and its top, whatever the heights were before.
pub proof fn lemma_tick_keeps_order(
    state: SimulationView,
    chart: Seq<MusicTimelineItem>,
    delta: u64,
    keys: Seq<MidiInputKey>,
)
    requires
        state.wf(chart),
        chart.len() <= usize::MAX,
    ensures
        state.ticked(chart, delta, keys).wf(chart),
        state.ticked(chart, delta, keys).settled(),
        state.ticked(chart, delta, keys).timeline_state.current >= state.timeline_state.current,
        state.ticked(chart, delta, keys).score >= state.score,
        state.ticked(chart, delta, keys).midi_state == state.midi_state,
        state.ticked(chart, delta, keys).tie_break == state.tie_break,
{
    lemma_cursor_monotonic(state.timeline_state, chart, delta);
    lemma_tick_keeps_notes(chart, state.midi_state.octave, state.timeline_state, state.notes, delta);
    lemma_score_never_falls(state.scene(chart, delta), state.midi_state.octave, state.tie_break, keys);
    lemma_strikes_keep_notes(
        state.scene(chart, delta),
        state.midi_state.octave,
        state.tie_break,
        keys,
        chart,
        state.timeline_state.advanced(delta).scheduled(chart),
    );
}

/// A note that falls through unstruck costs nothing: a tick in which no key strikes a
/// note leaves the score as it was, whatever notes reach the bottom in it, and the
/// notes that are left are those that have not reached the bottom.
pub proof fn lemma_miss_is_free(
    state: SimulationView,
    chart: Seq<MusicTimelineItem>,
    delta: u64,
    keys: Seq<MidiInputKey>,
)
    requires
        state.hits(chart, delta, keys).len() == 0,
    ensures
        state.ticked(chart, delta, keys).score == state.score,
        state.ticked(chart, delta, keys).notes == live_notes(state.in_flight(chart, delta)),
{
    lemma_no_hit_no_change(state.scene(chart, delta), state.midi_state.octave, state.tie_break, keys);
}

} // verus!
