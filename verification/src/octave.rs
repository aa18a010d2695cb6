//! Mapping between logical keyboard positions and device key numbers.
//!
//! A logical key is a position on the drawn keyboard, counted from 0. The device reports
//! key numbers that depend on the octave switch of the player's keyboard: the octave
//! setting shifts every logical key by a whole number of octaves.

use vstd::prelude::*;

verus! {

/// Number of keys in one octave.
pub const KEYS_PER_OCTAVE: i64 = 12;

/// The setting that is subtracted from: at octave 0 the keyboard starts three octaves up.
pub const OCTAVE_ORIGIN: i64 = 3;

/// Distance between a logical key and the device key that plays it, for an octave setting.
pub open spec fn octave_offset(octave: int) -> int {
    (OCTAVE_ORIGIN - octave) * KEYS_PER_OCTAVE
}

/// The logical key that a device key stands for under an octave setting.
pub open spec fn logical_key_of(device_key: int, octave: int) -> int {
    device_key - octave_offset(octave)
}

/// The device key that plays a logical key under an octave setting.
pub open spec fn device_key_of(logical_key: int, octave: int) -> int {
    logical_key + octave_offset(octave)
}

/// Computes the offset that an octave setting adds to every logical key.
pub fn get_octave(current_octave: i32) -> (octave_offset: i64)
    ensures
        octave_offset == self::octave_offset(current_octave as int),
{
    let octave: i64 = OCTAVE_ORIGIN - current_octave as i64;
    octave * KEYS_PER_OCTAVE
}

/// Computes the logical key that a device key stands for.
pub fn logical_key(device_key: u8, octave: i32) -> (key: i64)
    ensures
        key == logical_key_of(device_key as int, octave as int),
{
    device_key as i64 - get_octave(octave)
}

/// Computes the device key that plays a logical key, if the device has such a key: the
/// device numbers its keys from 0 to 255.
pub fn device_key(logical_key: i64, octave: i32) -> (key: Option<u8>)
    ensures
        match key {
            Some(id) => id == device_key_of(logical_key as int, octave as int),
            None => !(0 <= device_key_of(logical_key as int, octave as int) <= u8::MAX),
        },
{
    let id: i128 = logical_key as i128 + get_octave(octave) as i128;
    if 0 <= id && id <= 255 {
        Some(id as u8)
    } else {
        None
    }
}

/// Tells whether a device key plays a logical key under an octave setting.
pub fn plays_key(logical_key: i64, octave: i32, key_id: u8) -> (plays: bool)
    ensures
        plays == (device_key_of(logical_key as int, octave as int) == key_id),
{
    self::logical_key(key_id, octave) == logical_key
}

/// Going from a logical key to its device key and back gives the key again, and so does
/// the way from a device key to its logical key and back, under every octave setting.
pub proof fn lemma_octave_round_trip(key: int, octave: int)
    ensures
        key + octave_offset(octave) - octave_offset(octave) == key,
        logical_key_of(device_key_of(key, octave), octave) == key,
        device_key_of(logical_key_of(key, octave), octave) == key,
{
}

} // verus!
