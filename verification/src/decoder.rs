//! Frame decoding: raw little-endian 16-bit PCM bytes into logical
//! signed samples. Pure and stateless; a trailing odd byte (a
//! truncated sample) is never produced by a well-formed capture packet
//! and is ignored, exactly as pairing the bytes two by two ignores it.

use vstd::prelude::*;

verus! {

/// The signed 16-bit sample stored little-endian in the byte pair
/// `(b0, b1)`.
pub open spec fn le_sample(b0: u8, b1: u8) -> int {
    let u = b0 + 256 * b1;
    if u >= 32768 {
        u - 65536
    } else {
        u
    }
}

/// The whole decoded sequence of a byte buffer: one sample for every
/// complete little-endian byte pair.
pub open spec fn decoded(bytes: Seq<u8>) -> Seq<i16> {
    Seq::new((bytes.len() / 2) as nat, |i: int| le_sample(bytes[2 * i], bytes[2 * i + 1]) as i16)
}

/// Decode little-endian 16-bit PCM bytes into samples.
pub fn decode_le_i16(bytes: &[u8]) -> (out: Vec<i16>)
    ensures
        out@ == decoded(bytes@),
{
    let mut out: Vec<i16> = Vec::new();
    decode_le_i16_into(bytes, &mut out);
    out
}

/// Decode into a reused buffer: the previous contents are discarded,
/// and what ends up in `out` depends on the current input alone.
pub fn decode_le_i16_into(bytes: &[u8], out: &mut Vec<i16>)
    ensures
        final(out)@ == decoded(bytes@),
{
    let pairs: usize = bytes.len() / 2;
    out.clear();
    let mut i: usize = 0;
    while i < pairs
        invariant
            pairs == bytes@.len() as int / 2,
            bytes@.len() <= usize::MAX,
            0 <= i <= pairs,
            out@.len() == i,
            forall|k: int| 0 <= k < i ==> out@[k] == le_sample(bytes@[2 * k], bytes@[2 * k + 1]),
        decreases pairs - i,
    {
        let b0: u8 = bytes[2 * i];
        let b1: u8 = bytes[2 * i + 1];
        let u: u32 = b0 as u32 + 256 * (b1 as u32);
        let s: i32 = if u >= 32768 {
            u as i32 - 65536
        } else {
            u as i32
        };
        out.push(s as i16);
        i = i + 1;
    }
    proof {
        assert(out@ =~= decoded(bytes@));
    }
}

} // verus!
