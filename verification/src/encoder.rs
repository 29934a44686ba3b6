//! The incremental MP3 encoder, an external block codec. The library
//! configures it once per session, streams prepared interleaved
//! samples to it, and asks for its tail output at shutdown; the
//! encoding itself is the outside crate's work.

use vstd::prelude::*;
use crate::config::rate_combination_ok;
use crate::config::supported_bitrates;
use crate::config::supported_sample_rates;
use crate::config::validate_config;
use crate::config::TargetFormat;
use crate::errors::PipelineError;

verus! {

/// Declares shine_rs::Mp3Encoder, the incremental encoder: opaque
/// here, constructed and driven only through the wrappers below.
#[verifier::external_type_specification]
#[verifier::external_body]
pub struct ExMp3Encoder(shine_rs::Mp3Encoder);

/// Declares shine_rs::EncoderError, the encoder's error type: opaque
/// here, carried out to the caller inside the library's own error.
#[verifier::external_type_specification]
#[verifier::external_body]
pub struct ExEncoderError(shine_rs::EncoderError);

/// Relies on shine_rs::Mp3Encoder::new: construction succeeds exactly
/// when validation passes — the bitrate and sample rate are in their
/// supported sets and go together, the channel count is one or two,
/// and the stereo mode agrees with it; everything after validation is
/// infallible initialization.
#[verifier::external_body]
fn shine_new_encoder(sample_rate: u32, kbps: u32, channels: u8, mono: bool) -> (r: Result<
    shine_rs::Mp3Encoder,
    shine_rs::EncoderError,
>)
    ensures
        !supported_bitrates().contains(kbps) ==> r is Err,
        !supported_sample_rates().contains(sample_rate) ==> r is Err,
        !rate_combination_ok(sample_rate, kbps) ==> r is Err,
        !(channels == 1 || channels == 2) ==> r is Err,
        mono != (channels == 1) ==> r is Err,
        supported_bitrates().contains(kbps) && supported_sample_rates().contains(sample_rate)
            && rate_combination_ok(sample_rate, kbps) && (channels == 1 || channels == 2) && mono
            == (channels == 1) ==> r is Ok,
{
    let stereo_mode = if mono {
        shine_rs::StereoMode::Mono
    } else {
        shine_rs::StereoMode::Stereo
    };
    let config = shine_rs::Mp3EncoderConfig {
        sample_rate,
        bitrate: kbps,
        channels,
        stereo_mode,
        ..Default::default()
    };
    shine_rs::Mp3Encoder::new(config)
}

/// Relies on shine_rs::Mp3Encoder::encode_interleaved: buffers the
/// samples and hands back the bytes of each MP3 frame they complete,
/// in order; an empty input is rejected.
#[verifier::external_body]
fn shine_encode_interleaved(enc: &mut shine_rs::Mp3Encoder, samples: &[i16]) -> (r: Result<
    Vec<Vec<u8>>,
    shine_rs::EncoderError,
>)
    ensures
        samples@.len() == 0 ==> r is Err,
{
    enc.encode_interleaved(samples)
}

/// Relies on shine_rs::Mp3Encoder::finish: pads any buffered partial
/// frame with silence, encodes it, and flushes the bitstream tail.
#[verifier::external_body]
fn shine_finish(enc: &mut shine_rs::Mp3Encoder) -> (r: Result<Vec<u8>, shine_rs::EncoderError>) {
    enc.finish()
}

/// Create the session's encoder: the requested bitrate and the
/// device's sample rate are checked against the supported sets before
/// the encoder is constructed, each check reporting its own error; a
/// pair from both sets whose combination the bitrate table rejects
/// surfaces as the encoder's own error, and every acceptable
/// combination yields an encoder.
pub fn make_encoder(sample_rate: u32, kbps: u32, target: TargetFormat) -> (r: Result<
    shine_rs::Mp3Encoder,
    PipelineError,
>)
    requires
        1 <= target.channels <= 2,
        target.mono == (target.channels == 1),
    ensures
        !supported_bitrates().contains(kbps) ==> (r matches Err(
            PipelineError::UnsupportedBitrate(b),
        ) && b == kbps),
        supported_bitrates().contains(kbps) && !supported_sample_rates().contains(sample_rate)
            ==> (r matches Err(PipelineError::UnsupportedSampleRate(h)) && h == sample_rate),
        r is Ok ==> supported_bitrates().contains(kbps) && supported_sample_rates().contains(
            sample_rate,
        ),
        supported_bitrates().contains(kbps) && supported_sample_rates().contains(sample_rate)
            && rate_combination_ok(sample_rate, kbps) ==> r is Ok,
        supported_bitrates().contains(kbps) && supported_sample_rates().contains(sample_rate)
            && !rate_combination_ok(sample_rate, kbps) ==> r matches Err(
            PipelineError::Encoder(_),
        ),
{
    match validate_config(sample_rate, kbps) {
        Err(e) => Err(e),
        Ok(()) => match shine_new_encoder(sample_rate, kbps, target.channels as u8, target.mono) {
            Ok(enc) => Ok(enc),
            Err(e) => Err(PipelineError::Encoder(e)),
        },
    }
}

/// Stream one buffer of prepared interleaved samples to the encoder;
/// whatever the encoder reports is surfaced unchanged.
pub fn encode_samples(enc: &mut shine_rs::Mp3Encoder, samples: &[i16]) -> (r: Result<
    Vec<Vec<u8>>,
    PipelineError,
>)
    ensures
        samples@.len() == 0 ==> r is Err,
        r is Err ==> r matches Err(PipelineError::Encoder(_)),
{
    match shine_encode_interleaved(enc, samples) {
        Ok(chunks) => Ok(chunks),
        Err(e) => Err(PipelineError::Encoder(e)),
    }
}

/// Request the encoder's final tail output, exactly once per session.
pub fn finish_encoder(enc: &mut shine_rs::Mp3Encoder) -> (r: Result<Vec<u8>, PipelineError>)
    ensures
        r is Err ==> r matches Err(PipelineError::Encoder(_)),
{
    match shine_finish(enc) {
        Ok(tail) => Ok(tail),
        Err(e) => Err(PipelineError::Encoder(e)),
    }
}

} // verus!
