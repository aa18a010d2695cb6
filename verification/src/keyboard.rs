//! The layout of the piano keyboard.
//!
//! Keys are numbered from the left, starting at 0, and repeat a pattern of twelve: seven
//! white keys and five black ones. White keys stand side by side, one key width apart.
//! A black key straddles the boundary between the white key before it and the next one.
//! Lengths are in millionths of the width of a white key.

use vstd::prelude::*;

verus! {

/// Number of keys on the keyboard.
pub const NUM_TOTAL_KEYS: usize = 61;

/// Number of white keys on the keyboard.
pub const NUM_WHITE_KEYS: usize = 36;

/// Number of black keys on the keyboard.
pub const NUM_BLACK_KEYS: usize = 25;

/// Number of keys in the repeating pattern.
pub const PATTERN_LENGTH: i64 = 12;

/// Number of white keys in the repeating pattern.
pub const PATTERN_WHITE_KEYS: i64 = 7;

/// Width of a white key.
pub const WHITE_KEY_WIDTH: i128 = 1_000_000;

/// Height of a white key. A falling note is on time when it is at this height.
pub const WHITE_KEY_HEIGHT: i128 = 5_500_000;

/// Depth of a white key.
pub const WHITE_KEY_DEPTH: i128 = 250_000;

/// Width of a black key.
pub const BLACK_KEY_WIDTH: i128 = 500_000;

/// Height of a black key.
pub const BLACK_KEY_HEIGHT: i128 = 3_500_000;

/// Depth of a black key.
pub const BLACK_KEY_DEPTH: i128 = 500_000;

/// The colour of a key.
#[derive(Clone, Copy, Debug, PartialEq, Eq, Structural)]
pub enum PianoKeyType {
    White,
    Black,
}

/// Whether the key at a place of the pattern, counted from 0, is black.
pub open spec fn pattern_is_black(place: int) -> bool {
    place == 1 || place == 3 || place == 6 || place == 8 || place == 10
}

/// Number of white keys of the pattern that stand before a place of it.
pub open spec fn pattern_whites_before(place: int) -> int {
    if place <= 0 {
        0
    } else if place <= 2 {
        1
    } else if place <= 4 {
        2
    } else if place == 5 {
        3
    } else if place <= 7 {
        4
    } else if place <= 9 {
        5
    } else {
        6
    }
}

/// The colour of a key. The pattern goes on to both sides of the keyboard, so every
/// integer names a key.
pub open spec fn key_type_at(key: int) -> PianoKeyType {
    if pattern_is_black(key % (PATTERN_LENGTH as int)) {
        PianoKeyType::Black
    } else {
        PianoKeyType::White
    }
}

/// Number of white keys between key 0 and a key: those at 0 and above that stand before
/// the key, counted as negative for a key to the left of key 0.
pub open spec fn whites_before(key: int) -> int {
    PATTERN_WHITE_KEYS * (key / (PATTERN_LENGTH as int)) + pattern_whites_before(
        key % (PATTERN_LENGTH as int),
    )
}

/// Where a key stands from left to right. A white key stands one width further for every
/// white key before it; a black key stands half a width before that place.
pub open spec fn layout_x(key: int) -> int {
    if key_type_at(key) == PianoKeyType::Black {
        whites_before(key) * WHITE_KEY_WIDTH - WHITE_KEY_WIDTH / 2
    } else {
        whites_before(key) * WHITE_KEY_WIDTH
    }
}

/// How high the middle of a key stands: a black key is raised by a quarter of its height.
pub open spec fn layout_y(key: int) -> int {
    if key_type_at(key) == PianoKeyType::Black {
        BLACK_KEY_HEIGHT / 4
    } else {
        0
    }
}

/// One key of the keyboard, as it is drawn.
#[derive(Clone, Copy, Debug, PartialEq, Eq, Structural)]
pub struct PianoKey {
    /// Number of the key, from the left.
    pub id: usize,
    /// Colour of the key.
    pub key_type: PianoKeyType,
    /// Where the key stands from left to right.
    pub position_x: i128,
    /// How high the middle of the key stands.
    pub position_y: i128,
}

/// The key with a given number, as the layout places it.
pub open spec fn piano_key_at(id: usize) -> PianoKey {
    PianoKey {
        id,
        key_type: key_type_at(id as int),
        position_x: layout_x(id as int) as i128,
        position_y: layout_y(id as int) as i128,
    }
}

/// The place of a key in the pattern.
fn pattern_place(key: i64) -> (place: i64)
    ensures
        place == (key as int) % (PATTERN_LENGTH as int),
        0 <= place < PATTERN_LENGTH,
{
    match key.checked_rem_euclid(PATTERN_LENGTH) {
        Some(place) => place,
        None => 0,
    }
}

/// Tells the colour of a key.
pub fn key_type(key: i64) -> (colour: PianoKeyType)
    ensures
        colour == key_type_at(key as int),
{
    let place = pattern_place(key);
    if place == 1 || place == 3 || place == 6 || place == 8 || place == 10 {
        PianoKeyType::Black
    } else {
        PianoKeyType::White
    }
}

/// Counts the white keys between key 0 and a key.
pub fn white_keys_before(key: i64) -> (count: i64)
    ensures
        count == whites_before(key as int),
{
    let place = pattern_place(key);
    let in_pattern: i64 = if place <= 0 {
        0
    } else if place <= 2 {
        1
    } else if place <= 4 {
        2
    } else if place == 5 {
        3
    } else if place <= 7 {
        4
    } else if place <= 9 {
        5
    } else {
        6
    };
    let patterns: i64 = match key.checked_div_euclid(PATTERN_LENGTH) {
        Some(patterns) => patterns,
        None => 0,
    };
    PATTERN_WHITE_KEYS * patterns + in_pattern
}

/// Computes where a key stands from left to right.
pub fn key_position_x(key: i64) -> (x: i128)
    ensures
        x == layout_x(key as int),
{
    let whites: i128 = white_keys_before(key) as i128;
    match key_type(key) {
        PianoKeyType::Black => whites * WHITE_KEY_WIDTH - WHITE_KEY_WIDTH / 2,
        PianoKeyType::White => whites * WHITE_KEY_WIDTH,
    }
}

/// Computes how high the middle of a key stands.
pub fn key_position_y(key: i64) -> (y: i128)
    ensures
        y == layout_y(key as int),
{
    match key_type(key) {
        PianoKeyType::Black => BLACK_KEY_HEIGHT / 4,
        PianoKeyType::White => 0,
    }
}

/// Lays out the keyboard from left to right: a running count of white keys gives each
/// white key its place, and each black key the place half a width before it.
pub fn spawn_piano() -> (keys: Vec<PianoKey>)
    ensures
        keys@.len() == NUM_TOTAL_KEYS,
        forall|id: int|
            0 <= id < NUM_TOTAL_KEYS ==> #[trigger] keys@[id] == piano_key_at(id as usize),
{
    let mut keys: Vec<PianoKey> = Vec::new();
    let mut white_key_offset: i128 = 0;
    let mut index: usize = 0;
    while index < NUM_TOTAL_KEYS
        invariant
            index <= NUM_TOTAL_KEYS,
            keys@.len() == index,
            white_key_offset == whites_before(index as int),
            forall|id: int| 0 <= id < index ==> #[trigger] keys@[id] == piano_key_at(id as usize),
        decreases NUM_TOTAL_KEYS - index,
    {
        let position_x: i128 = white_key_offset * WHITE_KEY_WIDTH;
        let colour = key_type(index as i64);
        proof {
            lemma_layout_step(index as int);
        }
        match colour {
            PianoKeyType::White => {
                white_key_offset = white_key_offset + 1;
                keys.push(PianoKey { id: index, key_type: colour, position_x, position_y: 0 });
            },
            PianoKeyType::Black => {
                keys.push(
                    PianoKey {
                        id: index,
                        key_type: colour,
                        position_x: position_x - WHITE_KEY_WIDTH / 2,
                        position_y: BLACK_KEY_HEIGHT / 4,
                    },
                );
            },
        }
        index = index + 1;
    }
    keys
}

/// The layout rule, key by key: the count starts at zero at key 0, every white key
/// adds one to it, and a black key adds nothing.
pub proof fn lemma_layout_step(key: int)
    ensures
        whites_before(0) == 0,
        key_type_at(key) == PianoKeyType::White ==> whites_before(key + 1) == whites_before(key) + 1,
        key_type_at(key) == PianoKeyType::Black ==> whites_before(key + 1) == whites_before(key),
{
    let place = key % 12;
    let round = key / 12;
    assert(key == 12 * round + place && 0 <= place < 12) by (nonlinear_arith)
        requires
            place == key % 12,
            round == key / 12,
    ;
    if place == 11 {
        assert((key + 1) % 12 == 0 && (key + 1) / 12 == round + 1) by (nonlinear_arith)
            requires
                key == 12 * round + 11,
        ;
    } else {
        assert((key + 1) % 12 == place + 1 && (key + 1) / 12 == round) by (nonlinear_arith)
            requires
                key == 12 * round + place,
                0 <= place < 11,
        ;
    }
}

/// A black key always follows a white key, and stands half a width to the left of the
/// place where the next white key stands.
pub proof fn lemma_black_key_straddles(key: int)
    requires
        key_type_at(key) == PianoKeyType::Black,
    ensures
        key_type_at(key - 1) == PianoKeyType::White,
        key_type_at(key + 1) == PianoKeyType::White,
        layout_x(key) == layout_x(key + 1) - WHITE_KEY_WIDTH / 2,
        layout_x(key) == layout_x(key - 1) + WHITE_KEY_WIDTH / 2,
{
    lemma_layout_step(key - 1);
    lemma_layout_step(key);
    let place = key % 12;
    let round = key / 12;
    assert(key == 12 * round + place && 0 <= place < 12) by (nonlinear_arith)
        requires
            place == key % 12,
            round == key / 12,
    ;
    assert((key - 1) % 12 == place - 1 && (key + 1) % 12 == place + 1) by (nonlinear_arith)
        requires
            key == 12 * round + place,
            1 <= place < 11,
    ;
    assert((whites_before(key - 1) + 1) * WHITE_KEY_WIDTH == whites_before(key - 1)
        * WHITE_KEY_WIDTH + WHITE_KEY_WIDTH) by (nonlinear_arith);
}

/// The keyboard has as many white and black keys as its constants say.
pub proof fn lemma_key_counts()
    ensures
        whites_before(NUM_TOTAL_KEYS as int) == NUM_WHITE_KEYS,
        NUM_TOTAL_KEYS - whites_before(NUM_TOTAL_KEYS as int) == NUM_BLACK_KEYS,
{
}

} // verus!
