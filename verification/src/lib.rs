//! Verified core of a loopback-audio-to-MP3 recording pipeline.
//!
//! The library holds the pure logic of the pipeline: decoding raw
//! little-endian PCM bytes into 16-bit samples, reducing the channel
//! count of interleaved sample frames, validating the session
//! configuration against the encoder's supported parameter sets, and
//! the state machine that drives one recording session from start to
//! a clean shutdown. Device capture and file output live outside the
//! library and hand it plain values.

use vstd::prelude::*;

pub mod cancel;
pub mod config;
pub mod decoder;
pub mod driver;
pub mod encoder;
pub mod errors;
pub mod reducer;
pub mod session;

verus! {

pub use crate::reducer::downmix_n_to_mono;
pub use crate::reducer::downmix_n_to_stereo;
pub use crate::reducer::take_first_two_channels;

} // verus!
