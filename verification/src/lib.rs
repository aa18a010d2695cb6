//! The input-to-gameplay pipeline of a falling-note rhythm game that is played on a MIDI
//! keyboard.
//!
//! Raw frames of the device become key events ([`midi`]) and cross from the driver's
//! thread to the game loop through a bridge that never blocks ([`reader`]). A scheduler
//! turns the chart of a session into notes that fall along a timeline ([`timeline`]),
//! above the keys of a drawn keyboard ([`keyboard`], [`octave`]). Key events are judged
//! against the falling notes and earn a score ([`judgment`]). [`simulation`] holds all
//! of it together and runs one tick per frame; [`device`], [`highlight`] and [`states`]
//! decide what the code around the simulation has to do.
//!
//! Nothing here computes with floating point. Times are whole microseconds and lengths
//! are whole millionths of the width of a white key, so that the place of a note is
//! exact at every instant.

pub mod device;
pub mod highlight;
pub mod judgment;
pub mod keyboard;
pub mod midi;
pub mod octave;
pub mod reader;
pub mod simulation;
pub mod states;
pub mod timeline;
