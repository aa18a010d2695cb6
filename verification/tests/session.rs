use midi_revolution::judgment::TieBreak;
use midi_revolution::midi::{MidiEvents, MidiInputKey, MidiResponse};
use midi_revolution::reader::MidiInputReader;
use midi_revolution::simulation::SimulationState;
use midi_revolution::timeline::{MusicTimeline, MusicTimelineItem, MusicTimelineState};

const SECOND: u64 = 1_000_000;

fn one_note_chart() -> MusicTimeline {
    MusicTimeline::new(vec![MusicTimelineItem { time: SECOND, note: 38, length: 3 * SECOND }])
        .ok()
        .unwrap()
}

fn press(id: u8) -> MidiInputKey {
    MidiInputKey { timestamp: 0, event: MidiEvents::Pressed, id, intensity: 90 }
}

#[test]
fn new_simulation_is_idle_and_empty() {
    let sim = SimulationState::new(TieBreak::NearestToLine);
    assert!(!sim.midi_state.connected);
    assert!(sim.midi_state.keys.is_empty());
    assert_eq!(sim.midi_state.octave, 0);
    assert_eq!(sim.game_state.score, 0);
    assert_eq!(sim.timeline_state, MusicTimelineState::new());
    assert!(sim.notes.is_empty());
    assert_eq!(sim.tie_break, TieBreak::NearestToLine);
}

#[test]
fn note_appears_at_its_time_above_its_key() {
    let chart = one_note_chart();
    let mut sim = SimulationState::new(TieBreak::FirstFound);
    sim.start();
    let report = sim.tick(&chart, SECOND - 1, &Vec::new());
    assert_eq!(report.spawned, None);
    assert!(sim.notes.is_empty());
    let report = sim.tick(&chart, 1, &Vec::new());
    let spawned = report.spawned.unwrap();
    assert_eq!(spawned.scheduled_time, SECOND);
    assert_eq!(spawned.logical_key, 38 - 36);
    assert_eq!(sim.notes.len(), 1);
    assert_eq!(sim.notes[0].logical_key, 2);
    assert_eq!(sim.notes[0].position_y, 30_000_000);
    assert!(sim.timeline_state.complete);
    assert_eq!(sim.timeline_state.current, 1);
}

#[test]
fn press_right_after_the_note_appeared_strikes_it() {
    let chart = one_note_chart();
    let mut sim = SimulationState::new(TieBreak::FirstFound);
    sim.start();
    sim.tick(&chart, SECOND, &Vec::new());
    assert_eq!(sim.notes.len(), 1);
    let report = sim.tick(&chart, 1, &vec![press(38)]);
    assert_eq!(report.hits.len(), 1);
    assert_eq!(report.hits[0].note.id, 0);
    assert_eq!(report.hits[0].note.position_y, 29_999_997);
    assert_eq!(report.hits[0].score, 1000);
    assert!(sim.notes.is_empty());
    assert_eq!(sim.game_state.score, 1000);
}

#[test]
fn press_when_the_note_is_on_the_line_earns_the_base_score() {
    let chart = one_note_chart();
    let mut sim = SimulationState::new(TieBreak::NearestToLine);
    sim.start();
    sim.tick(&chart, SECOND, &Vec::new());
    let report = sim.tick(&chart, 8_166_667, &vec![press(38)]);
    assert_eq!(report.hits.len(), 1);
    assert_eq!(report.hits[0].note.position_y, 5_499_999);
    assert_eq!(report.hits[0].score, 1000);
    assert_eq!(sim.game_state.score, 1000);
    assert!(sim.notes.is_empty());
}

#[test]
fn unstruck_note_falls_through_for_free() {
    let chart = one_note_chart();
    let mut sim = SimulationState::new(TieBreak::FirstFound);
    sim.start();
    sim.tick(&chart, SECOND, &vec![press(37)]);
    assert_eq!(sim.notes.len(), 1);
    let report = sim.tick(&chart, 10 * SECOND, &vec![press(39)]);
    assert_eq!(report.missed.len(), 1);
    assert_eq!(report.missed[0].id, 0);
    assert_eq!(report.missed[0].position_y, 0);
    assert!(report.hits.is_empty());
    assert!(sim.notes.is_empty());
    assert_eq!(sim.game_state.score, 0);
}

#[test]
fn note_at_the_bottom_cannot_be_struck_any_more() {
    let chart = one_note_chart();
    let mut sim = SimulationState::new(TieBreak::FirstFound);
    sim.start();
    sim.tick(&chart, SECOND, &Vec::new());
    let report = sim.tick(&chart, 10 * SECOND, &vec![press(38)]);
    assert_eq!(report.missed.len(), 1);
    assert!(report.hits.is_empty());
    assert_eq!(sim.game_state.score, 0);
}

#[test]
fn reset_clears_the_session() {
    let chart = MusicTimeline::built_in();
    let mut reader = MidiInputReader::new();
    let mut sim = SimulationState::new(TieBreak::FirstFound);
    sim.start();
    reader.send(MidiResponse::Connected);
    sim.step(&chart, &mut reader, SECOND);
    reader.send(MidiResponse::Input(press(38)));
    sim.step(&chart, &mut reader, SECOND);
    reader.send(MidiResponse::Input(press(50)));
    sim.step(&chart, &mut reader, SECOND);
    assert_eq!(sim.timeline_state.current, 3);
    assert!(sim.timeline_state.complete);
    assert!(sim.timeline_state.playing);
    assert_eq!(sim.game_state.score, 1000);
    assert_eq!(sim.notes.len(), 2);
    sim.reset();
    assert_eq!(sim.timeline_state.current, 0);
    assert!(!sim.timeline_state.complete);
    assert!(!sim.timeline_state.playing);
    assert_eq!(sim.timeline_state.timer, 0);
    assert_eq!(sim.game_state.score, 0);
    assert!(sim.notes.is_empty());
    assert!(sim.midi_state.connected);
    assert_eq!(sim.midi_state.keys.len(), 2);
}

#[test]
fn session_can_be_played_again_after_a_reset() {
    let chart = MusicTimeline::built_in();
    let mut sim = SimulationState::new(TieBreak::FirstFound);
    sim.start();
    for _ in 0..5 {
        sim.tick(&chart, SECOND, &Vec::new());
    }
    sim.reset();
    let report = sim.tick(&chart, 5 * SECOND, &Vec::new());
    assert_eq!(report.spawned, None);
    assert_eq!(sim.timeline_state.timer, 0);
    sim.start();
    let report = sim.tick(&chart, SECOND, &Vec::new());
    assert_eq!(report.spawned.unwrap().id, 0);
    assert_eq!(sim.timeline_state.current, 1);
}

#[test]
fn pause_freezes_a_session() {
    let chart = MusicTimeline::built_in();
    let mut sim = SimulationState::new(TieBreak::FirstFound);
    sim.start();
    sim.tick(&chart, SECOND, &Vec::new());
    sim.pause();
    assert!(!sim.timeline_state.playing);
    let report = sim.tick(&chart, 30 * SECOND, &Vec::new());
    assert_eq!(report.spawned, None);
    assert!(report.missed.is_empty());
    assert_eq!(sim.timeline_state.timer, SECOND);
    assert_eq!(sim.notes[0].position_y, 30_000_000);
    sim.resume();
    let report = sim.tick(&chart, SECOND, &Vec::new());
    assert_eq!(report.spawned.unwrap().id, 1);
    assert_eq!(sim.notes[0].position_y, 27_000_000);
}

#[test]
fn key_can_strike_while_the_session_is_paused() {
    let chart = one_note_chart();
    let mut sim = SimulationState::new(TieBreak::FirstFound);
    sim.start();
    sim.tick(&chart, 10 * SECOND, &Vec::new());
    assert_eq!(sim.notes[0].position_y, 3_000_000);
    sim.pause();
    let report = sim.tick(&chart, SECOND, &vec![press(38)]);
    assert_eq!(report.hits.len(), 1);
    assert_eq!(report.hits[0].score, 500);
    assert_eq!(sim.game_state.score, 500);
}

#[test]
fn sync_records_keys_and_connection() {
    let mut reader = MidiInputReader::new();
    let mut sim = SimulationState::new(TieBreak::FirstFound);
    reader.send(MidiResponse::Connected);
    for id in 0..15u8 {
        reader.send(MidiResponse::Input(press(id)));
    }
    let (messages, events) = sim.sync(&mut reader);
    assert_eq!(messages.len(), 16);
    assert_eq!(events.len(), 15);
    assert!(sim.midi_state.connected);
    let ids: Vec<u8> = sim.midi_state.keys.iter().map(|k| k.id).collect();
    assert_eq!(ids, vec![5, 6, 7, 8, 9, 10, 11, 12, 13, 14]);
    assert_eq!(sim.timeline_state, MusicTimelineState::new());
    assert_eq!(sim.game_state.score, 0);
}

#[test]
fn tick_leaves_the_input_state_alone() {
    let chart = MusicTimeline::built_in();
    let mut sim = SimulationState::new(TieBreak::FirstFound);
    sim.midi_state.octave = 1;
    sim.start();
    sim.tick(&chart, SECOND, &vec![press(38), press(26)]);
    assert!(sim.midi_state.keys.is_empty());
    assert!(!sim.midi_state.connected);
    assert_eq!(sim.midi_state.octave, 1);
    assert_eq!(sim.game_state.score, 1000);
}

#[test]
fn whole_session_through_the_bridge() {
    let chart = MusicTimeline::built_in();
    let mut reader = MidiInputReader::new();
    let device = reader.sender();
    let mut sim = SimulationState::new(TieBreak::NearestToLine);

    device.send(MidiResponse::Connected);
    let done = sim.step(&chart, &mut reader, 16_000);
    assert_eq!(done.messages, vec![MidiResponse::Connected]);
    assert!(done.events.is_empty());
    assert!(sim.midi_state.connected);
    assert_eq!(sim.timeline_state.timer, 0);

    sim.start();
    let mut spawned = Vec::new();
    let mut missed = Vec::new();
    let mut hits = Vec::new();
    for frame in 0..1500u64 {
        if frame == 572 {
            device.forward_frame(frame, &[144, 38, 100]);
        }
        if frame == 600 {
            device.forward_frame(frame, &[128, 38, 0]);
            device.forward_frame(frame, &[144, 40, 80]);
            device.forward_frame(frame, &[144, 41, 80]);
        }
        let report = sim.step(&chart, &mut reader, 16_000).tick;
        if let Some(note) = report.spawned {
            spawned.push((frame, note.id));
        }
        missed.extend(report.missed.iter().map(|n| n.id));
        hits.extend(report.hits.iter().map(|h| (h.note.id, h.score)));
    }
    assert_eq!(spawned, vec![(62, 0), (124, 1), (187, 2)]);
    assert_eq!(hits, vec![(0, 1000), (2, 1000)]);
    assert_eq!(missed, vec![1]);
    assert_eq!(sim.game_state.score, 2000);
    assert!(sim.notes.is_empty());
    assert!(sim.timeline_state.complete);
    assert_eq!(sim.timeline_state.timer, 1500 * 16_000);
    assert_eq!(sim.midi_state.keys.len(), 4);
}
