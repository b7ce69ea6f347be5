//! Randomised, repeated playback of a single audio clip: the rules that turn
//! user input into a playback window, pick the waits between repeats, and
//! drive the schedulers that play the clip.

pub mod blocking;
pub mod config;
pub mod gain;
pub mod instance;
pub mod registry;
pub mod sampler;
pub mod source;
pub mod time;
