//! Channel reduction: pure numeric transforms that map an interleaved
//! sample sequence with a source channel count onto a target channel
//! count. Accumulation happens in a wider integer type and every
//! averaged output sample is clamped to the signed 16-bit range.

use vstd::prelude::*;

verus! {

/// Largest channel count the averaging reducers accept; keeps every
/// frame's accumulated sum of 16-bit samples inside `i32` (at the
/// bound, an all-minimum frame sums to exactly `i32::MIN`).
pub const MAX_CHANNELS: usize = 0x10000;

/// Clamp an unbounded integer into the signed 16-bit sample range.
pub open spec fn clamp16(v: int) -> int {
    if v < -32768 {
        -32768
    } else if v > 32767 {
        32767
    } else {
        v
    }
}

/// Division that rounds toward zero (what the executable code computes
/// on `i32`), for a positive divisor.
pub open spec fn div_trunc(a: int, b: int) -> int
    recommends
        b > 0,
{
    if a >= 0 {
        a / b
    } else {
        -((-a) / b)
    }
}

/// Sum of the first `n` samples of the frame starting at `base`.
pub open spec fn frame_sum(s: Seq<i16>, base: int, n: int) -> int
    decreases n,
{
    if n <= 0 {
        0
    } else {
        frame_sum(s, base, n - 1) + s[base + n - 1]
    }
}

/// The mono downmix of frame `f`: the truncated average over all of
/// its channels, clamped to the 16-bit range.
pub open spec fn mono_sample(s: Seq<i16>, channels: int, f: int) -> int {
    clamp16(div_trunc(frame_sum(s, f * channels, channels), channels))
}

/// One more whole frame still fits: `f < len / channels` puts the
/// samples `f * channels .. f * channels + channels` inside the input.
proof fn lemma_frame_in_bounds(len: int, channels: int, f: int) by (nonlinear_arith)
    requires
        0 <= len,
        1 <= channels,
        0 <= f < len / channels,
    ensures
        0 <= f * channels,
        f * channels + channels <= len,
{
}

/// Reduce an interleaved multichannel sequence to mono: each output
/// sample is the truncated average of one frame's channels, clamped to
/// the 16-bit range. Trailing samples short of a whole frame are
/// ignored.
pub fn downmix_n_to_mono(interleaved: &[i16], channels: usize) -> (out: Vec<i16>)
    requires
        1 <= channels <= MAX_CHANNELS,
    ensures
        out@.len() == interleaved@.len() as int / channels as int,
        forall|f: int|
            0 <= f < out@.len() ==> out@[f] == mono_sample(interleaved@, channels as int, f),
{
    let mut out: Vec<i16> = Vec::new();
    downmix_n_to_mono_into(interleaved, channels, &mut out);
    out
}

/// Mono downmix into a reused buffer: the previous contents are
/// discarded, and what ends up in `out` depends on the current input
/// alone.
pub fn downmix_n_to_mono_into(interleaved: &[i16], channels: usize, out: &mut Vec<i16>)
    requires
        1 <= channels <= MAX_CHANNELS,
    ensures
        final(out)@.len() == interleaved@.len() as int / channels as int,
        forall|f: int|
            0 <= f < final(out)@.len() ==> final(out)@[f] == mono_sample(
                interleaved@,
                channels as int,
                f,
            ),
{
    let frames: usize = interleaved.len() / channels;
    out.clear();
    let mut f: usize = 0;
    while f < frames
        invariant
            frames == interleaved@.len() as int / channels as int,
            interleaved@.len() <= usize::MAX,
            1 <= channels <= MAX_CHANNELS,
            0 <= f <= frames,
            out@.len() == f,
            forall|k: int|
                0 <= k < f ==> out@[k] == mono_sample(interleaved@, channels as int, k),
        decreases frames - f,
    {
        proof {
            lemma_frame_in_bounds(interleaved@.len() as int, channels as int, f as int);
        }
        let base: usize = f * channels;
        let mut acc: i32 = 0;
        let mut ch: usize = 0;
        while ch < channels
            invariant
                base + channels <= interleaved@.len(),
                interleaved@.len() <= usize::MAX,
                1 <= channels <= MAX_CHANNELS,
                0 <= ch <= channels,
                acc == frame_sum(interleaved@, base as int, ch as int),
                -32768 * ch <= acc <= 32767 * ch,
            decreases channels - ch,
        {
            acc = acc + interleaved[base + ch] as i32;
            ch = ch + 1;
        }
        let m: i16 = clamped_quotient(acc, channels as i32);
        out.push(m);
        f = f + 1;
    }
}

/// Divide rounding toward zero and clamp the quotient to the 16-bit
/// range, as the averaging step of every downmix does; the division
/// widens once more so that even a sum of exactly `i32::MIN` divides
/// cleanly.
fn clamped_quotient(acc: i32, divisor: i32) -> (r: i16)
    requires
        1 <= divisor,
    ensures
        r == clamp16(div_trunc(acc as int, divisor as int)),
{
    let a: i64 = acc as i64;
    let d: i64 = divisor as i64;
    let q: i64 = if a >= 0 {
        proof {
            lemma_div_pos_bound(a as int, d as int);
        }
        a / d
    } else {
        proof {
            lemma_div_pos_bound(-(a as int), d as int);
        }
        -((-a) / d)
    };
    if q < -32768 {
        -32768
    } else if q > 32767 {
        32767
    } else {
        q as i16
    }
}

/// Dividing a nonnegative integer by a positive one never grows it.
proof fn lemma_div_pos_bound(a: int, b: int) by (nonlinear_arith)
    requires
        0 <= a,
        1 <= b,
    ensures
        0 <= a / b <= a,
{
}

/// Sum of the samples of one frame whose channel index has the given
/// parity (`0` sums the even-indexed channels, `1` the odd-indexed).
pub open spec fn parity_sum(s: Seq<i16>, base: int, n: int, parity: int) -> int
    decreases n,
{
    if n <= 0 {
        0
    } else {
        parity_sum(s, base, n - 1, parity) + if (n - 1) % 2 == parity {
            s[base + n - 1] as int
        } else {
            0
        }
    }
}

/// How many channel indices in `0..channels` are even.
pub open spec fn even_channels(channels: int) -> int {
    (channels + 1) / 2
}

/// How many channel indices in `0..channels` are odd.
pub open spec fn odd_channels(channels: int) -> int {
    channels / 2
}

/// Left output of the parity downmix of frame `f`: the truncated
/// average of the even-indexed channels, clamped.
pub open spec fn stereo_left(s: Seq<i16>, channels: int, f: int) -> int {
    clamp16(div_trunc(parity_sum(s, f * channels, channels, 0), even_channels(channels)))
}

/// Right output of the parity downmix of frame `f`: the truncated
/// average of the odd-indexed channels, clamped; a lone channel has no
/// odd partner, and the empty average is taken over a divisor of one.
pub open spec fn stereo_right(s: Seq<i16>, channels: int, f: int) -> int {
    clamp16(
        div_trunc(
            parity_sum(s, f * channels, channels, 1),
            if odd_channels(channels) < 1 {
                1
            } else {
                odd_channels(channels)
            },
        ),
    )
}

/// Parity downmix to stereo: channels of each frame are partitioned by
/// index parity, each side is averaged (truncating) and clamped. A
/// deliberate simplification with no channel-layout awareness.
pub fn downmix_n_to_stereo(interleaved: &[i16], channels: usize) -> (out: Vec<i16>)
    requires
        1 <= channels <= MAX_CHANNELS,
    ensures
        out@.len() == 2 * (interleaved@.len() as int / channels as int),
        forall|f: int|
            0 <= f < interleaved@.len() as int / channels as int ==> out@[2 * f] == stereo_left(
                interleaved@,
                channels as int,
                f,
            ) && out@[2 * f + 1] == stereo_right(interleaved@, channels as int, f),
{
    let mut out: Vec<i16> = Vec::new();
    downmix_n_to_stereo_into(interleaved, channels, &mut out);
    out
}

/// Parity stereo downmix into a reused buffer: the previous contents
/// are discarded, and what ends up in `out` depends on the current
/// input alone.
pub fn downmix_n_to_stereo_into(interleaved: &[i16], channels: usize, out: &mut Vec<i16>)
    requires
        1 <= channels <= MAX_CHANNELS,
    ensures
        final(out)@.len() == 2 * (interleaved@.len() as int / channels as int),
        forall|f: int|
            0 <= f < interleaved@.len() as int / channels as int ==> final(out)@[2 * f]
                == stereo_left(interleaved@, channels as int, f) && final(out)@[2 * f + 1]
                == stereo_right(interleaved@, channels as int, f),
{
    let frames: usize = interleaved.len() / channels;
    out.clear();
    let mut f: usize = 0;
    while f < frames
        invariant
            frames == interleaved@.len() as int / channels as int,
            interleaved@.len() <= usize::MAX,
            1 <= channels <= MAX_CHANNELS,
            0 <= f <= frames,
            out@.len() == 2 * f,
            forall|k: int|
                0 <= k < f ==> out@[2 * k] == stereo_left(interleaved@, channels as int, k)
                    && out@[2 * k + 1] == stereo_right(interleaved@, channels as int, k),
        decreases frames - f,
    {
        proof {
            lemma_frame_in_bounds(interleaved@.len() as int, channels as int, f as int);
        }
        let base: usize = f * channels;
        let mut l_acc: i32 = 0;
        let mut r_acc: i32 = 0;
        let mut l_n: i32 = 0;
        let mut r_n: i32 = 0;
        let mut ch: usize = 0;
        while ch < channels
            invariant
                base + channels <= interleaved@.len(),
                interleaved@.len() <= usize::MAX,
                1 <= channels <= MAX_CHANNELS,
                0 <= ch <= channels,
                l_acc == parity_sum(interleaved@, base as int, ch as int, 0),
                r_acc == parity_sum(interleaved@, base as int, ch as int, 1),
                l_n == (ch as int + 1) / 2,
                r_n == ch as int / 2,
                -32768 * ch <= l_acc <= 32767 * ch,
                -32768 * ch <= r_acc <= 32767 * ch,
            decreases channels - ch,
        {
            let sv: i32 = interleaved[base + ch] as i32;
            if ch % 2 == 0 {
                l_acc = l_acc + sv;
                l_n = l_n + 1;
            } else {
                r_acc = r_acc + sv;
                r_n = r_n + 1;
            }
            ch = ch + 1;
        }
        let r_div: i32 = if r_n < 1 {
            1
        } else {
            r_n
        };
        let l: i16 = clamped_quotient(l_acc, l_n);
        let r: i16 = clamped_quotient(r_acc, r_div);
        out.push(l);
        out.push(r);
        f = f + 1;
    }
}

/// Left pick of the first-two-channel selection: channel 0 of frame
/// `f`.
pub open spec fn first_two_left(s: Seq<i16>, channels: int, f: int) -> i16 {
    s[f * channels]
}

/// Right pick of the first-two-channel selection: channel 1 of frame
/// `f`, or channel 0 again when the source has a single channel.
pub open spec fn first_two_right(s: Seq<i16>, channels: int, f: int) -> i16 {
    s[f * channels + if channels >= 2 {
        1int
    } else {
        0int
    }]
}

/// Keep only the first two channels of each frame; a single-channel
/// source is duplicated into both outputs rather than rejected.
pub fn take_first_two_channels(interleaved: &[i16], channels: usize) -> (out: Vec<i16>)
    requires
        1 <= channels,
    ensures
        out@.len() == 2 * (interleaved@.len() as int / channels as int),
        forall|f: int|
            0 <= f < interleaved@.len() as int / channels as int ==> out@[2 * f] == first_two_left(
                interleaved@,
                channels as int,
                f,
            ) && out@[2 * f + 1] == first_two_right(interleaved@, channels as int, f),
{
    let mut out: Vec<i16> = Vec::new();
    take_first_two_channels_into(interleaved, channels, &mut out);
    out
}

/// First-two-channel selection into a reused buffer: the previous
/// contents are discarded, and what ends up in `out` depends on the
/// current input alone.
pub fn take_first_two_channels_into(interleaved: &[i16], channels: usize, out: &mut Vec<i16>)
    requires
        1 <= channels,
    ensures
        final(out)@.len() == 2 * (interleaved@.len() as int / channels as int),
        forall|f: int|
            0 <= f < interleaved@.len() as int / channels as int ==> final(out)@[2 * f]
                == first_two_left(interleaved@, channels as int, f) && final(out)@[2 * f + 1]
                == first_two_right(interleaved@, channels as int, f),
{
    let frames: usize = interleaved.len() / channels;
    out.clear();
    let mut f: usize = 0;
    while f < frames
        invariant
            frames == interleaved@.len() as int / channels as int,
            interleaved@.len() <= usize::MAX,
            1 <= channels,
            0 <= f <= frames,
            out@.len() == 2 * f,
            forall|k: int|
                0 <= k < f ==> out@[2 * k] == first_two_left(interleaved@, channels as int, k)
                    && out@[2 * k + 1] == first_two_right(interleaved@, channels as int, k),
        decreases frames - f,
    {
        proof {
            lemma_frame_in_bounds(interleaved@.len() as int, channels as int, f as int);
        }
        let base: usize = f * channels;
        let right_offset: usize = if channels >= 2 {
            1
        } else {
            0
        };
        let l: i16 = interleaved[base];
        let r: i16 = interleaved[base + right_offset];
        out.push(l);
        out.push(r);
        f = f + 1;
    }
}

/// Pass the input through unchanged into a reused buffer: the previous
/// contents are discarded and replaced by an exact copy of the input.
pub fn passthrough_into(interleaved: &[i16], out: &mut Vec<i16>)
    ensures
        final(out)@ == interleaved@,
{
    out.clear();
    out.extend_from_slice(interleaved);
    proof {
        assert(out@ =~= interleaved@);
    }
}

/// The four disjoint reduction policies, decided once at session
/// setup.
#[derive(PartialEq, Eq, Structural, Clone, Copy, Debug)]
pub enum Policy {
    /// Source and target counts agree: the output is the input.
    Passthrough,
    /// Parity downmix to stereo: even-indexed channels averaged left,
    /// odd-indexed right.
    ParityStereo,
    /// All channels of a frame averaged into one.
    Mono,
    /// Only the first two channels of each frame are kept.
    FirstTwo,
}

/// Which policy a session runs, decided in the order the dispatch
/// tests the formats.
pub open spec fn policy_of(source: int, target: int, downmix: bool) -> Policy {
    if source == target {
        Policy::Passthrough
    } else if downmix && target == 2 {
        Policy::ParityStereo
    } else if target == 1 {
        Policy::Mono
    } else {
        Policy::FirstTwo
    }
}

/// The reducer's whole output for one input, under the policy the
/// formats select.
pub open spec fn reduced(s: Seq<i16>, source: int, target: int, downmix: bool) -> Seq<i16> {
    match policy_of(source, target, downmix) {
        Policy::Passthrough => s,
        Policy::ParityStereo => Seq::new(
            (2 * (s.len() as int / source)) as nat,
            |j: int|
                if j % 2 == 0 {
                    stereo_left(s, source, j / 2) as i16
                } else {
                    stereo_right(s, source, (j - 1) / 2) as i16
                },
        ),
        Policy::Mono => Seq::new(
            (s.len() as int / source) as nat,
            |f: int| mono_sample(s, source, f) as i16,
        ),
        Policy::FirstTwo => Seq::new(
            (2 * (s.len() as int / source)) as nat,
            |j: int|
                if j % 2 == 0 {
                    first_two_left(s, source, j / 2)
                } else {
                    first_two_right(s, source, (j - 1) / 2)
                },
        ),
    }
}

/// Identity law: whenever the source and target channel counts agree,
/// the reduction passes every frame sequence through unchanged,
/// whatever the downmix flag says.
pub proof fn lemma_passthrough_identity(s: Seq<i16>, channels: int, downmix: bool)
    ensures
        reduced(s, channels, channels, downmix) == s,
{
}

/// Which policy the session runs: the same tests, in the same order,
/// as the per-packet dispatch.
pub fn select_policy(source_channels: usize, target_channels: usize, downmix: bool) -> (p: Policy)
    ensures
        p == policy_of(source_channels as int, target_channels as int, downmix),
{
    if source_channels == target_channels {
        Policy::Passthrough
    } else if downmix && target_channels == 2 {
        Policy::ParityStereo
    } else if target_channels == 1 {
        Policy::Mono
    } else {
        Policy::FirstTwo
    }
}

/// Reduce one decoded buffer into a reused output buffer under the
/// policy the formats select. The previous contents of `out` are
/// discarded; what ends up there depends on the current input alone.
pub fn reduce_into(
    samples: &[i16],
    source_channels: usize,
    target_channels: usize,
    downmix: bool,
    out: &mut Vec<i16>,
)
    requires
        1 <= source_channels <= MAX_CHANNELS,
    ensures
        final(out)@ == reduced(
            samples@,
            source_channels as int,
            target_channels as int,
            downmix,
        ),
{
    let ghost src = source_channels as int;
    if source_channels == target_channels {
        passthrough_into(samples, out);
    } else if downmix && target_channels == 2 {
        downmix_n_to_stereo_into(samples, source_channels, out);
        proof {
            let spec_out = reduced(samples@, src, target_channels as int, downmix);
            assert forall|j: int| 0 <= j < out@.len() implies out@[j] == spec_out[j] by {
                if j % 2 == 0 {
                    assert(j == 2 * (j / 2));
                } else {
                    assert(j == 2 * ((j - 1) / 2) + 1);
                }
            }
            assert(out@ =~= spec_out);
        }
    } else if target_channels == 1 {
        downmix_n_to_mono_into(samples, source_channels, out);
        proof {
            assert(out@ =~= reduced(samples@, src, target_channels as int, downmix));
        }
    } else {
        take_first_two_channels_into(samples, source_channels, out);
        proof {
            let spec_out = reduced(samples@, src, target_channels as int, downmix);
            assert forall|j: int| 0 <= j < out@.len() implies out@[j] == spec_out[j] by {
                if j % 2 == 0 {
                    assert(j == 2 * (j / 2));
                } else {
                    assert(j == 2 * ((j - 1) / 2) + 1);
                }
            }
            assert(out@ =~= spec_out);
        }
    }
}

} // verus!
