//! The session's fatal conditions. Every error terminates the
//! pipeline and surfaces its cause to the caller; none is retried or
//! swallowed, and there is no partial-success mode.

use vstd::prelude::*;

verus! {

/// A fatal condition of one recording session.
#[derive(Debug)]
pub enum PipelineError {
    /// The requested bitrate is outside the encoder's supported set.
    UnsupportedBitrate(u32),
    /// The device's sample rate is outside the encoder's supported
    /// set.
    UnsupportedSampleRate(u32),
    /// The encoder failed to initialize, to encode, or to flush.
    Encoder(shine_rs::EncoderError),
}

} // verus!
