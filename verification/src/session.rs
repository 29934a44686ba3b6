//! One capture session: the immutable source and target formats, the
//! reusable per-iteration sample buffers, and the per-packet
//! decode-reduce-encode step. The raw bytes of each packet are handed
//! in by the caller that drains the capture source; the encoded bytes
//! go back out to be appended to the sink.

use vstd::prelude::*;
use crate::decoder::decode_le_i16_into;
use crate::decoder::decoded;
use crate::encoder::encode_samples;
use crate::errors::PipelineError;
use crate::reducer::reduce_into;
use crate::reducer::reduced;
use crate::reducer::MAX_CHANNELS;

verus! {

/// What one raw capture packet becomes at the encoder's doorstep: its
/// little-endian bytes decoded to samples, then reduced to the target
/// channel count.
pub open spec fn prepared(raw: Seq<u8>, source: int, target: int, downmix: bool) -> Seq<i16> {
    reduced(decoded(raw), source, target, downmix)
}

/// The per-session state of the drain loop. The two sample buffers
/// are owned for the session's whole lifetime and are logically
/// emptied, capacity retained, at the start of every packet: nothing
/// of a prior packet can leak into the next one.
pub struct CaptureSession {
    /// Channel count of the device format.
    pub source_channels: usize,
    /// Channel count handed to the encoder.
    pub target_channels: usize,
    /// Whether a downmix to stereo was requested.
    pub downmix: bool,
    /// Decoded source samples of the current packet.
    pub pcm_buf: Vec<i16>,
    /// Encoder input of the current packet.
    pub enc_buf: Vec<i16>,
}

impl CaptureSession {
    /// Formats a session can run with.
    pub open spec fn wf(self) -> bool {
        &&& 1 <= self.source_channels <= MAX_CHANNELS
        &&& 1 <= self.target_channels
    }

    /// Start a session with empty buffers.
    pub fn new(source_channels: usize, target_channels: usize, downmix: bool) -> (s:
        CaptureSession)
        requires
            1 <= source_channels <= MAX_CHANNELS,
            1 <= target_channels,
        ensures
            s.wf(),
            s.source_channels == source_channels,
            s.target_channels == target_channels,
            s.downmix == downmix,
            s.pcm_buf@.len() == 0,
            s.enc_buf@.len() == 0,
    {
        CaptureSession {
            source_channels,
            target_channels,
            downmix,
            pcm_buf: Vec::new(),
            enc_buf: Vec::new(),
        }
    }

    /// Decode one raw packet and reduce it to the target channel
    /// count, reusing both buffers. Whatever the buffers held before,
    /// they end up holding exactly the current packet's samples.
    pub fn prepare_packet(&mut self, raw: &[u8])
        requires
            old(self).wf(),
        ensures
            final(self).wf(),
            final(self).source_channels == old(self).source_channels,
            final(self).target_channels == old(self).target_channels,
            final(self).downmix == old(self).downmix,
            final(self).pcm_buf@ == decoded(raw@),
            final(self).enc_buf@ == prepared(
                raw@,
                old(self).source_channels as int,
                old(self).target_channels as int,
                old(self).downmix,
            ),
    {
        decode_le_i16_into(raw, &mut self.pcm_buf);
        reduce_into(
            self.pcm_buf.as_slice(),
            self.source_channels,
            self.target_channels,
            self.downmix,
            &mut self.enc_buf,
        );
    }

    /// Process one packet end to end: prepare it, then stream the
    /// prepared samples to the encoder. The chunks that come back are
    /// the bytes of each MP3 frame the packet completed, to be
    /// appended to the sink in order.
    pub fn encode_packet(&mut self, enc: &mut shine_rs::Mp3Encoder, raw: &[u8]) -> (r: Result<
        Vec<Vec<u8>>,
        PipelineError,
    >)
        requires
            old(self).wf(),
        ensures
            final(self).wf(),
            final(self).source_channels == old(self).source_channels,
            final(self).target_channels == old(self).target_channels,
            final(self).downmix == old(self).downmix,
            final(self).enc_buf@ == prepared(
                raw@,
                old(self).source_channels as int,
                old(self).target_channels as int,
                old(self).downmix,
            ),
            r is Err ==> r matches Err(PipelineError::Encoder(_)),
    {
        self.prepare_packet(raw);
        encode_samples(enc, self.enc_buf.as_slice())
    }
}

/// How many bytes one drained packet occupies: frames times channels
/// times the two bytes of one 16-bit sample.
pub fn packet_bytes_needed(frames: u32, channels: usize) -> (n: usize)
    requires
        frames * channels * 2 <= usize::MAX,
    ensures
        n == frames * channels * 2,
{
    (frames as usize) * channels * 2
}

/// Whether the inner drain reads another packet: the source reports a
/// ready packet and it is nonempty. `None` or an empty packet ends
/// the drain and returns control to the outer tick.
pub fn drain_should_read(next_packet_frames: Option<u32>) -> (r: bool)
    ensures
        r == (next_packet_frames matches Some(f) && f > 0),
{
    match next_packet_frames {
        Some(f) => f > 0,
        None => false,
    }
}

} // verus!
