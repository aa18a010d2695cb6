//! Which keys of the drawn keyboard light up under the player's hands.
//!
//! A key event lights the key of the drawn keyboard that it plays under the octave
//! setting, if the keyboard has that key: a key that is down turns blue, a key that
//! went up gets its own colour back.

use crate::keyboard::{key_type, key_type_at, PianoKeyType, NUM_TOTAL_KEYS};
use crate::midi::{MidiEvents, MidiInputKey, MidiInputState};
use crate::octave::{logical_key, logical_key_of};
use vstd::prelude::*;

verus! {

/// A colour that a key of the drawn keyboard can have.
#[derive(Clone, Copy, Debug, PartialEq, Eq, Structural)]
pub enum KeyColor {
    Blue,
    White,
    Black,
}

/// A key of the drawn keyboard and the colour that it gets.
#[derive(Clone, Copy, Debug, PartialEq, Eq, Structural)]
pub struct KeyHighlight {
    /// Number of the key, from the left.
    pub key: usize,
    /// Its new colour.
    pub color: KeyColor,
}

/// The colour of a key after an event: blue while it is down, its own colour when it
/// went up.
pub open spec fn color_after(event: MidiEvents, key_type: PianoKeyType) -> KeyColor {
    match event {
        MidiEvents::Pressed => KeyColor::Blue,
        MidiEvents::Holding => KeyColor::Blue,
        MidiEvents::Released => match key_type {
            PianoKeyType::White => KeyColor::White,
            PianoKeyType::Black => KeyColor::Black,
        },
    }
}

/// The key of the drawn keyboard that a device key plays under an octave setting, if
/// the keyboard has it.
pub open spec fn keyboard_key_of(key_id: u8, octave: i32) -> Option<usize> {
    let key = logical_key_of(key_id as int, octave as int);
    if 0 <= key < NUM_TOTAL_KEYS {
        Some(key as usize)
    } else {
        None
    }
}

/// What a key event lights up, if anything.
pub open spec fn highlight_of(key: MidiInputKey, octave: i32) -> Option<KeyHighlight> {
    match keyboard_key_of(key.id, octave) {
        Some(place) => Some(
            KeyHighlight { key: place, color: color_after(key.event, key_type_at(place as int)) },
        ),
        None => None,
    }
}

/// What a run of key events lights up, in the order of arrival.
pub open spec fn highlights_of(keys: Seq<MidiInputKey>, octave: i32) -> Seq<KeyHighlight>
    decreases keys.len(),
{
    if keys.len() == 0 {
        Seq::empty()
    } else {
        match highlight_of(keys.last(), octave) {
            Some(highlight) => highlights_of(keys.drop_last(), octave).push(highlight),
            None => highlights_of(keys.drop_last(), octave),
        }
    }
}

/// Tells the colour of a key after an event.
pub fn highlight_color(event: MidiEvents, key_type: PianoKeyType) -> (color: KeyColor)
    ensures
        color == color_after(event, key_type),
{
    match event {
        MidiEvents::Pressed => KeyColor::Blue,
        MidiEvents::Holding => KeyColor::Blue,
        MidiEvents::Released => match key_type {
            PianoKeyType::White => KeyColor::White,
            PianoKeyType::Black => KeyColor::Black,
        },
    }
}

/// Finds the key of the drawn keyboard that a device key plays, if the keyboard has it.
pub fn keyboard_key(key_id: u8, octave: i32) -> (key: Option<usize>)
    ensures
        key == keyboard_key_of(key_id, octave),
{
    let real_id = logical_key(key_id, octave);
    if 0 <= real_id && real_id < NUM_TOTAL_KEYS as i64 {
        Some(real_id as usize)
    } else {
        None
    }
}

/// Tells, for the key events of a tick, which keys of the drawn keyboard change colour
/// and to which, in the order of the events. Events for keys that the keyboard does
/// not have light nothing.
pub fn highlight_keys(key_events: &Vec<MidiInputKey>, midi_state: &MidiInputState) -> (highlights:
    Vec<KeyHighlight>)
    ensures
        highlights@ == highlights_of(key_events@, midi_state.octave),
{
    let octave = midi_state.octave;
    let mut highlights: Vec<KeyHighlight> = Vec::new();
    let mut index: usize = 0;
    proof {
        assert(key_events@.take(0) =~= Seq::empty());
    }
    while index < key_events.len()
        invariant
            index <= key_events@.len(),
            highlights@ == highlights_of(key_events@.take(index as int), octave),
        decreases key_events@.len() - index,
    {
        let key = key_events[index];
        proof {
            let next = key_events@.take(index + 1);
            assert(next.drop_last() =~= key_events@.take(index as int));
            assert(next.last() == key);
        }
        match keyboard_key(key.id, octave) {
            Some(place) => {
                let color = highlight_color(key.event, key_type(place as i64));
                highlights.push(KeyHighlight { key: place, color });
            },
            None => {},
        }
        index = index + 1;
    }
    proof {
        assert(key_events@.take(key_events@.len() as int) =~= key_events@);
    }
    highlights
}

} // verus!
