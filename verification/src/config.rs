//! Session configuration: the encoder's fixed supported parameter
//! sets, validation of the requested bitrate and the device's sample
//! rate against them, and the derivation of the target format from the
//! device format and the downmix policy choice.

use vstd::prelude::*;
use crate::errors::PipelineError;

verus! {

/// The sample rates the MP3 encoder accepts, in Hz.
pub open spec fn supported_sample_rates() -> Seq<u32> {
    seq![
        8000u32,
        11025u32,
        12000u32,
        16000u32,
        22050u32,
        24000u32,
        32000u32,
        44100u32,
        48000u32,
    ]
}

/// The bitrates the MP3 encoder accepts, in kbps.
pub open spec fn supported_bitrates() -> Seq<u32> {
    seq![
        8u32,
        16u32,
        24u32,
        32u32,
        40u32,
        48u32,
        56u32,
        64u32,
        80u32,
        96u32,
        112u32,
        128u32,
        144u32,
        160u32,
        192u32,
        224u32,
        256u32,
        320u32,
    ]
}

/// Which bitrates go with which sample rates: each rate family keeps
/// its own column of the encoder's bitrate table. The three highest
/// rates take 32 through 320 kbps, the middle three 8 through 160,
/// and the three lowest 8 through 64; a rate outside the supported
/// set goes with nothing.
pub open spec fn rate_combination_ok(sample_rate: u32, kbps: u32) -> bool {
    if sample_rate == 32000 || sample_rate == 44100 || sample_rate == 48000 {
        seq![
            32u32,
            40u32,
            48u32,
            56u32,
            64u32,
            80u32,
            96u32,
            112u32,
            128u32,
            160u32,
            192u32,
            224u32,
            256u32,
            320u32,
        ].contains(kbps)
    } else if sample_rate == 16000 || sample_rate == 22050 || sample_rate == 24000 {
        seq![
            8u32,
            16u32,
            24u32,
            32u32,
            40u32,
            48u32,
            56u32,
            64u32,
            80u32,
            96u32,
            112u32,
            128u32,
            144u32,
            160u32,
        ].contains(kbps)
    } else if sample_rate == 8000 || sample_rate == 11025 || sample_rate == 12000 {
        seq![8u32, 16u32, 24u32, 32u32, 40u32, 48u32, 56u32, 64u32].contains(kbps)
    } else {
        false
    }
}

/// Relies on shine_rs::SUPPORTED_SAMPLE_RATES: the encoder's fixed
/// list of accepted sample rates.
#[verifier::external_body]
fn shine_sample_rates() -> (r: Vec<u32>)
    ensures
        r@ == supported_sample_rates(),
{
    shine_rs::SUPPORTED_SAMPLE_RATES.to_vec()
}

/// Relies on shine_rs::SUPPORTED_BITRATES: the encoder's fixed list of
/// accepted bitrates.
#[verifier::external_body]
fn shine_bitrates() -> (r: Vec<u32>)
    ensures
        r@ == supported_bitrates(),
{
    shine_rs::SUPPORTED_BITRATES.to_vec()
}

fn vec_contains_u32(hay: &Vec<u32>, needle: u32) -> (r: bool)
    ensures
        r == hay@.contains(needle),
{
    let mut i: usize = 0;
    while i < hay.len()
        invariant
            0 <= i <= hay@.len(),
            forall|k: int| 0 <= k < i ==> hay@[k] != needle,
        decreases hay@.len() - i,
    {
        if hay[i] == needle {
            return true;
        }
        i = i + 1;
    }
    false
}

/// Whether the encoder accepts this sample rate.
pub fn is_supported_sample_rate(hz: u32) -> (r: bool)
    ensures
        r == supported_sample_rates().contains(hz),
{
    let rates = shine_sample_rates();
    vec_contains_u32(&rates, hz)
}

/// Whether the encoder accepts this bitrate.
pub fn is_supported_bitrate(kbps: u32) -> (r: bool)
    ensures
        r == supported_bitrates().contains(kbps),
{
    let rates = shine_bitrates();
    vec_contains_u32(&rates, kbps)
}

/// Check the requested bitrate and the device's sample rate against
/// the encoder's supported sets, in that order; a startup-time fatal
/// condition, reported before any capture is activated.
pub fn validate_config(sample_rate: u32, kbps: u32) -> (r: Result<(), PipelineError>)
    ensures
        r is Ok <==> (supported_bitrates().contains(kbps) && supported_sample_rates().contains(
            sample_rate,
        )),
        !supported_bitrates().contains(kbps) ==> (r matches Err(
            PipelineError::UnsupportedBitrate(b),
        ) && b == kbps),
        supported_bitrates().contains(kbps) && !supported_sample_rates().contains(sample_rate)
            ==> (r matches Err(PipelineError::UnsupportedSampleRate(h)) && h == sample_rate),
{
    if !is_supported_bitrate(kbps) {
        Err(PipelineError::UnsupportedBitrate(kbps))
    } else if !is_supported_sample_rate(sample_rate) {
        Err(PipelineError::UnsupportedSampleRate(sample_rate))
    } else {
        Ok(())
    }
}

/// The target format of one session, derived once from the device
/// format and the downmix choice and immutable afterwards.
#[derive(PartialEq, Eq, Structural, Clone, Copy, Debug)]
pub struct TargetFormat {
    /// Interleaved channel count handed to the encoder.
    pub channels: usize,
    /// Whether the encoder runs in mono mode rather than stereo.
    pub mono: bool,
}

/// Derive the target format: forcing a downmix records two channels;
/// otherwise the device's channel count is kept, capped at two. Mono
/// mode is set exactly when a single channel is produced.
pub fn plan_target(source_channels: usize, downmix_to_stereo: bool) -> (t: TargetFormat)
    requires
        1 <= source_channels,
    ensures
        downmix_to_stereo ==> t.channels == 2,
        !downmix_to_stereo ==> t.channels == (if source_channels < 2 {
            source_channels as int
        } else {
            2int
        }),
        t.mono == (t.channels == 1),
{
    let channels: usize = if downmix_to_stereo {
        2
    } else if source_channels < 2 {
        source_channels
    } else {
        2
    };
    TargetFormat { channels, mono: channels == 1 }
}

} // verus!
