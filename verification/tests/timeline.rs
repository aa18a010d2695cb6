use midi_revolution::keyboard::PianoKeyType;
use midi_revolution::midi::MidiInputState;
use midi_revolution::timeline::{
    animate_music_timeline, clear_complete_timeline_notes, note_position_y, spawn_music_timeline,
    tick_timeline, ChartError, MusicTimeline, MusicTimelineItem, MusicTimelineState,
    TimelineNote, TimelinePhase, TIMELINE_BOTTOM, TIMELINE_FALL_RATE, TIMELINE_LENGTH,
    TIMELINE_TOP,
};

const SECOND: u64 = 1_000_000;

fn item(time: u64, note: u8) -> MusicTimelineItem {
    MusicTimelineItem { time, note, length: 3 * SECOND }
}

fn note(id: usize, scheduled_time: u64, position_y: i128) -> TimelineNote {
    TimelineNote {
        id,
        scheduled_time,
        logical_key: 2,
        key_type: PianoKeyType::White,
        position_x: 1_000_000,
        position_y,
    }
}

fn playing_at(timer: u64) -> MusicTimelineState {
    MusicTimelineState { current: 0, playing: true, complete: false, timer }
}

#[test]
fn timeline_constants() {
    assert_eq!(TIMELINE_TOP, 30_000_000);
    assert_eq!(TIMELINE_BOTTOM, 0);
    assert_eq!(TIMELINE_LENGTH, 10_000_000);
    assert_eq!(TIMELINE_FALL_RATE, TIMELINE_TOP / TIMELINE_LENGTH as i128);
}

#[test]
fn built_in_chart_has_three_notes() {
    let chart = MusicTimeline::built_in();
    assert_eq!(chart.len(), 3);
    assert_eq!(
        chart.timeline,
        vec![
            MusicTimelineItem { time: 1_000_000, note: 38, length: 3_000_000 },
            MusicTimelineItem { time: 2_000_000, note: 39, length: 3_000_000 },
            MusicTimelineItem { time: 3_000_000, note: 40, length: 3_000_000 },
        ]
    );
}

#[test]
fn ordered_items_make_a_chart() {
    let items = vec![item(0, 1), item(1, 2), item(5, 3), item(u64::MAX, 4)];
    let chart = MusicTimeline::new(items.clone()).ok().unwrap();
    assert_eq!(chart.timeline, items);
    assert_eq!(chart.len(), 4);
    assert_eq!(MusicTimeline::new(Vec::new()).ok().unwrap().len(), 0);
    assert_eq!(MusicTimeline::new(vec![item(7, 1)]).ok().unwrap().len(), 1);
}

#[test]
fn chart_out_of_order_is_refused() {
    let equal = MusicTimeline::new(vec![item(1, 1), item(1, 2)]);
    assert_eq!(equal.err(), Some(ChartError::OutOfOrder { index: 1 }));
    let back = MusicTimeline::new(vec![item(1, 1), item(2, 2), item(3, 3), item(2, 4)]);
    assert_eq!(back.err(), Some(ChartError::OutOfOrder { index: 3 }));
    let twice = MusicTimeline::new(vec![item(5, 1), item(6, 2), item(4, 3), item(3, 4)]);
    assert_eq!(twice.err(), Some(ChartError::OutOfOrder { index: 2 }));
}

#[test]
fn new_state_is_idle() {
    let state = MusicTimelineState::new();
    assert_eq!(state, MusicTimelineState { current: 0, playing: false, complete: false, timer: 0 });
    assert_eq!(state.phase(), TimelinePhase::Idle);
}

#[test]
fn phases() {
    let mut state = MusicTimelineState::new();
    state.start();
    assert_eq!(state.phase(), TimelinePhase::Playing);
    state.advance(5);
    state.pause();
    assert_eq!(state.phase(), TimelinePhase::Paused);
    state.resume();
    assert_eq!(state.phase(), TimelinePhase::Playing);
    state.complete = true;
    assert_eq!(state.phase(), TimelinePhase::Complete);
    state.reset();
    assert_eq!(state.phase(), TimelinePhase::Idle);
}

#[test]
fn start_begins_an_idle_session() {
    let mut state = MusicTimelineState::new();
    state.start();
    assert_eq!(state, MusicTimelineState { current: 0, playing: true, complete: false, timer: 0 });
    state.start();
    assert_eq!(state, MusicTimelineState { current: 0, playing: true, complete: false, timer: 0 });
}

#[test]
fn start_leaves_a_paused_session_alone() {
    let mut state = MusicTimelineState { current: 2, playing: false, complete: false, timer: 7 };
    state.start();
    assert_eq!(state, MusicTimelineState { current: 2, playing: false, complete: false, timer: 7 });
}

#[test]
fn pause_and_resume_keep_cursor_and_time() {
    let mut state = MusicTimelineState { current: 2, playing: true, complete: false, timer: 7 };
    state.pause();
    assert_eq!(state, MusicTimelineState { current: 2, playing: false, complete: false, timer: 7 });
    state.pause();
    assert_eq!(state, MusicTimelineState { current: 2, playing: false, complete: false, timer: 7 });
    state.resume();
    assert_eq!(state, MusicTimelineState { current: 2, playing: true, complete: false, timer: 7 });
}

#[test]
fn reset_goes_back_to_the_beginning() {
    let mut state = MusicTimelineState { current: 3, playing: true, complete: true, timer: 99 };
    state.reset();
    assert_eq!(state, MusicTimelineState { current: 0, playing: false, complete: false, timer: 0 });
}

#[test]
fn clock_runs_only_while_playing() {
    let mut state = MusicTimelineState::new();
    state.advance(10);
    assert_eq!(state.timer, 0);
    state.start();
    state.advance(10);
    state.advance(5);
    assert_eq!(state.timer, 15);
    state.pause();
    state.advance(1000);
    assert_eq!(state.timer, 15);
    state.resume();
    state.advance(1);
    assert_eq!(state.timer, 16);
}

#[test]
fn clock_stops_at_its_largest_time() {
    let mut state = playing_at(u64::MAX - 3);
    state.advance(2);
    assert_eq!(state.timer, u64::MAX - 1);
    state.advance(2);
    assert_eq!(state.timer, u64::MAX);
    state.advance(u64::MAX);
    assert_eq!(state.timer, u64::MAX);
}

#[test]
fn position_follows_the_clock() {
    assert_eq!(note_position_y(SECOND, SECOND), 30_000_000);
    assert_eq!(note_position_y(SECOND, 2 * SECOND), 27_000_000);
    assert_eq!(note_position_y(SECOND, 6 * SECOND), 15_000_000);
    assert_eq!(note_position_y(SECOND, 11 * SECOND), 0);
    assert_eq!(note_position_y(SECOND, 12 * SECOND), -3_000_000);
    assert_eq!(note_position_y(SECOND, 0), 33_000_000);
    assert_eq!(note_position_y(SECOND, SECOND + 1), 29_999_997);
    assert_eq!(note_position_y(0, 0), 30_000_000);
}

#[test]
fn position_formula_on_many_times() {
    for t0 in [0u64, 1, 999_999, 1_000_000, 7_654_321] {
        for t in [0u64, 1, 2, 1_000_000, 9_166_667, 11_000_000, 50_000_000] {
            let expected = 30_000_000i128
                + (t0 as i128 - t as i128) * 30_000_000 / 10_000_000;
            assert_eq!(note_position_y(t0, t), expected);
        }
    }
}

#[test]
fn position_at_the_ends_of_the_clock() {
    assert_eq!(note_position_y(u64::MAX, 0), 30_000_000 + 3 * (u64::MAX as i128));
    assert_eq!(note_position_y(0, u64::MAX), 30_000_000 - 3 * (u64::MAX as i128));
    assert_eq!(note_position_y(u64::MAX, u64::MAX), 30_000_000);
}

#[test]
fn nothing_appears_before_the_session_plays() {
    let chart = MusicTimeline::new(vec![item(0, 38)]).ok().unwrap();
    let midi = MidiInputState::new();
    let mut state = MusicTimelineState::new();
    let mut notes = Vec::new();
    assert_eq!(spawn_music_timeline(&chart, &midi, &mut state, &mut notes), None);
    assert_eq!(state, MusicTimelineState::new());
    assert!(notes.is_empty());
}

#[test]
fn nothing_appears_before_its_time() {
    let chart = MusicTimeline::built_in();
    let midi = MidiInputState::new();
    let mut state = playing_at(SECOND - 1);
    let mut notes = Vec::new();
    assert_eq!(spawn_music_timeline(&chart, &midi, &mut state, &mut notes), None);
    assert_eq!(state, playing_at(SECOND - 1));
    assert!(notes.is_empty());
}

#[test]
fn note_appears_when_the_clock_reaches_its_time() {
    let chart = MusicTimeline::built_in();
    let midi = MidiInputState::new();
    let mut state = playing_at(SECOND);
    let mut notes = Vec::new();
    let expected = TimelineNote {
        id: 0,
        scheduled_time: SECOND,
        logical_key: 2,
        key_type: PianoKeyType::White,
        position_x: 1_000_000,
        position_y: 30_000_000,
    };
    assert_eq!(spawn_music_timeline(&chart, &midi, &mut state, &mut notes), Some(expected));
    assert_eq!(notes, vec![expected]);
    assert_eq!(state, MusicTimelineState { current: 1, playing: true, complete: false, timer: SECOND });
}

#[test]
fn black_key_note_falls_half_a_width_to_the_left() {
    let chart = MusicTimeline::built_in();
    let midi = MidiInputState::new();
    let mut state = MusicTimelineState { current: 1, playing: true, complete: false, timer: 2 * SECOND };
    let mut notes = Vec::new();
    let spawned = spawn_music_timeline(&chart, &midi, &mut state, &mut notes).unwrap();
    assert_eq!(spawned.id, 1);
    assert_eq!(spawned.logical_key, 3);
    assert_eq!(spawned.key_type, PianoKeyType::Black);
    assert_eq!(spawned.position_x, 1_500_000);
}

#[test]
fn octave_setting_moves_the_note() {
    let chart = MusicTimeline::built_in();
    let mut midi = MidiInputState::new();
    midi.octave = 1;
    let mut state = playing_at(SECOND);
    let mut notes = Vec::new();
    let spawned = spawn_music_timeline(&chart, &midi, &mut state, &mut notes).unwrap();
    assert_eq!(spawned.logical_key, 14);
    assert_eq!(spawned.key_type, PianoKeyType::White);
    assert_eq!(spawned.position_x, 8_000_000);
}

#[test]
fn one_note_appears_per_tick() {
    let chart = MusicTimeline::built_in();
    let midi = MidiInputState::new();
    let mut state = playing_at(10 * SECOND);
    let mut notes = Vec::new();
    assert_eq!(spawn_music_timeline(&chart, &midi, &mut state, &mut notes).unwrap().id, 0);
    assert_eq!((state.current, state.complete), (1, false));
    assert_eq!(spawn_music_timeline(&chart, &midi, &mut state, &mut notes).unwrap().id, 1);
    assert_eq!((state.current, state.complete), (2, false));
    assert_eq!(spawn_music_timeline(&chart, &midi, &mut state, &mut notes).unwrap().id, 2);
    assert_eq!((state.current, state.complete), (3, true));
    assert_eq!(spawn_music_timeline(&chart, &midi, &mut state, &mut notes), None);
    assert_eq!((state.current, state.complete), (3, true));
    assert_eq!(notes.len(), 3);
}

#[test]
fn cursor_never_moves_back() {
    let chart = MusicTimeline::built_in();
    let midi = MidiInputState::new();
    let mut state = MusicTimelineState::new();
    let mut notes = Vec::new();
    state.start();
    let mut last = 0;
    for step in 0..400u64 {
        if step % 7 == 3 {
            state.pause();
        }
        if step % 7 == 5 {
            state.resume();
        }
        tick_timeline(&chart, &midi, &mut state, &mut notes, 50_000);
        assert!(state.current >= last);
        assert!(state.current <= chart.len());
        assert_eq!(state.complete, state.current == chart.len());
        last = state.current;
    }
    assert_eq!(last, 3);
}

#[test]
fn empty_chart_is_complete_at_the_first_tick() {
    let chart = MusicTimeline::new(Vec::new()).ok().unwrap();
    let midi = MidiInputState::new();
    let mut state = MusicTimelineState::new();
    let mut notes = Vec::new();
    state.start();
    assert!(!state.complete);
    let tick = tick_timeline(&chart, &midi, &mut state, &mut notes, 1);
    assert_eq!(tick.spawned, None);
    assert!(tick.missed.is_empty());
    assert_eq!(state, MusicTimelineState { current: 0, playing: true, complete: true, timer: 1 });
}

#[test]
fn cursor_beyond_the_chart_ends_the_session() {
    let chart = MusicTimeline::built_in();
    let midi = MidiInputState::new();
    let mut state = MusicTimelineState { current: 9, playing: true, complete: false, timer: 0 };
    let mut notes = Vec::new();
    assert_eq!(spawn_music_timeline(&chart, &midi, &mut state, &mut notes), None);
    assert_eq!(state, MusicTimelineState { current: 9, playing: true, complete: true, timer: 0 });
}

#[test]
fn animate_places_every_note() {
    let mut notes = vec![note(0, SECOND, 123), note(1, 2 * SECOND, -5), note(2, 3 * SECOND, 0)];
    let state = playing_at(4 * SECOND);
    animate_music_timeline(&mut notes, &state);
    assert_eq!(
        notes,
        vec![
            note(0, SECOND, 21_000_000),
            note(1, 2 * SECOND, 24_000_000),
            note(2, 3 * SECOND, 27_000_000),
        ]
    );
}

#[test]
fn fallen_notes_are_taken_away() {
    let mut notes = vec![
        note(0, 0, 0),
        note(1, 0, 1),
        note(2, 0, -1),
        note(3, 0, 30_000_000),
        note(4, 0, -30_000_000),
    ];
    let missed = clear_complete_timeline_notes(&mut notes);
    assert_eq!(notes, vec![note(1, 0, 1), note(3, 0, 30_000_000)]);
    assert_eq!(missed, vec![note(0, 0, 0), note(2, 0, -1), note(4, 0, -30_000_000)]);
    assert!(clear_complete_timeline_notes(&mut notes).is_empty());
    assert_eq!(notes.len(), 2);
}

#[test]
fn note_leaves_at_the_bottom() {
    let chart = MusicTimeline::new(vec![item(SECOND, 38)]).ok().unwrap();
    let midi = MidiInputState::new();
    let mut state = MusicTimelineState::new();
    let mut notes = Vec::new();
    state.start();
    let tick = tick_timeline(&chart, &midi, &mut state, &mut notes, SECOND);
    assert_eq!(tick.spawned.unwrap().id, 0);
    assert_eq!(notes[0].position_y, 30_000_000);
    let tick = tick_timeline(&chart, &midi, &mut state, &mut notes, 10 * SECOND - 1);
    assert!(tick.missed.is_empty());
    assert_eq!(notes[0].position_y, 3);
    let tick = tick_timeline(&chart, &midi, &mut state, &mut notes, 1);
    assert_eq!(tick.missed.len(), 1);
    assert_eq!(tick.missed[0].id, 0);
    assert_eq!(tick.missed[0].position_y, 0);
    assert!(notes.is_empty());
    assert!(state.complete);
}

#[test]
fn late_tick_places_a_new_note_below_the_top() {
    let chart = MusicTimeline::built_in();
    let midi = MidiInputState::new();
    let mut state = MusicTimelineState::new();
    let mut notes = Vec::new();
    state.start();
    let tick = tick_timeline(&chart, &midi, &mut state, &mut notes, SECOND + 500_000);
    assert_eq!(tick.spawned.unwrap().position_y, 30_000_000);
    assert_eq!(notes.len(), 1);
    assert_eq!(notes[0].position_y, 28_500_000);
}

#[test]
fn note_missed_in_one_long_tick_is_never_live() {
    let chart = MusicTimeline::built_in();
    let midi = MidiInputState::new();
    let mut state = MusicTimelineState::new();
    let mut notes = Vec::new();
    state.start();
    let tick = tick_timeline(&chart, &midi, &mut state, &mut notes, 60 * SECOND);
    assert_eq!(tick.spawned.unwrap().id, 0);
    assert_eq!(tick.missed.len(), 1);
    assert_eq!(tick.missed[0].position_y, 30_000_000 - 3 * 59_000_000);
    assert!(notes.is_empty());
}

#[test]
fn paused_session_keeps_its_notes_in_place() {
    let chart = MusicTimeline::built_in();
    let midi = MidiInputState::new();
    let mut state = MusicTimelineState::new();
    let mut notes = Vec::new();
    state.start();
    tick_timeline(&chart, &midi, &mut state, &mut notes, 2 * SECOND);
    let before = notes.clone();
    let cursor = state.current;
    state.pause();
    for _ in 0..10 {
        let tick = tick_timeline(&chart, &midi, &mut state, &mut notes, 5 * SECOND);
        assert_eq!(tick.spawned, None);
        assert!(tick.missed.is_empty());
    }
    assert_eq!(notes, before);
    assert_eq!(state.current, cursor);
    assert_eq!(state.timer, 2 * SECOND);
}

#[test]
fn pause_does_not_displace_notes() {
    let chart = MusicTimeline::built_in();
    let midi = MidiInputState::new();

    let mut straight = MusicTimelineState::new();
    let mut straight_notes = Vec::new();
    straight.start();
    for _ in 0..40 {
        tick_timeline(&chart, &midi, &mut straight, &mut straight_notes, 100_000);
    }

    let mut broken = MusicTimelineState::new();
    let mut broken_notes = Vec::new();
    broken.start();
    for step in 0..40 {
        if step % 3 == 1 {
            broken.pause();
            tick_timeline(&chart, &midi, &mut broken, &mut broken_notes, 777_777);
            tick_timeline(&chart, &midi, &mut broken, &mut broken_notes, 1);
            broken.resume();
        }
        tick_timeline(&chart, &midi, &mut broken, &mut broken_notes, 100_000);
    }

    assert_eq!(straight, broken);
    assert_eq!(straight_notes, broken_notes);
    assert_eq!(straight.timer, 4 * SECOND);
    let heights: Vec<i128> = straight_notes.iter().map(|n| n.position_y).collect();
    assert_eq!(heights, vec![21_000_000, 24_000_000, 27_000_000]);
}

#[test]
fn frame_length_does_not_displace_notes() {
    let chart = MusicTimeline::built_in();
    let midi = MidiInputState::new();
    let mut coarse = MusicTimelineState::new();
    let mut coarse_notes = Vec::new();
    coarse.start();
    for _ in 0..5 {
        tick_timeline(&chart, &midi, &mut coarse, &mut coarse_notes, SECOND);
    }
    let mut fine = MusicTimelineState::new();
    let mut fine_notes = Vec::new();
    fine.start();
    for _ in 0..5000 {
        tick_timeline(&chart, &midi, &mut fine, &mut fine_notes, 1000);
    }
    assert_eq!(coarse, fine);
    assert_eq!(coarse_notes, fine_notes);
}
