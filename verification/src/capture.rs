//! The compute half of the capture edge.
//!
//! The audio backend's real-time callback hands over interleaved raw bytes;
//! the only computation on that path is reading them as little-endian
//! signed 16-bit samples. The callback itself (dequeuing device buffers and
//! the non-blocking enqueue of the resulting chunk) stays outside the
//! library and must never block.

use vstd::prelude::*;

verus! {

/// The signed 16-bit sample encoded little-endian by the byte pair
/// `(lo, hi)`.
pub open spec fn spec_i16_from_le(lo: u8, hi: u8) -> i16 {
    let v = lo + 256 * (hi as int);
    if v < 32768 {
        v as i16
    } else {
        (v - 65536) as i16
    }
}

/// Reads one little-endian signed 16-bit sample from its two bytes.
pub fn i16_from_le(lo: u8, hi: u8) -> (s: i16)
    ensures
        s == spec_i16_from_le(lo, hi),
{
    let v: u32 = (lo as u32) + 256 * (hi as u32);
    if v < 32768 {
        v as i16
    } else {
        (v as i32 - 65536) as i16
    }
}

/// Reads a captured byte buffer as little-endian signed 16-bit samples,
/// two bytes per sample in order; a trailing odd byte carries no complete
/// sample and is ignored.
pub fn samples_from_le_bytes(bytes: &Vec<u8>) -> (samples: Vec<i16>)
    ensures
        samples@.len() == bytes@.len() / 2,
        forall|i: int|
            0 <= i < samples@.len() ==> samples@[i] == spec_i16_from_le(
                bytes@[2 * i],
                bytes@[2 * i + 1],
            ),
{
    let mut samples: Vec<i16> = Vec::new();
    let mut j: usize = 0;
    while bytes.len() - j >= 2
        invariant
            j <= bytes@.len(),
            j == 2 * samples@.len(),
            forall|k: int|
                0 <= k < samples@.len() ==> samples@[k] == spec_i16_from_le(
                    bytes@[2 * k],
                    bytes@[2 * k + 1],
                ),
        decreases bytes@.len() - j,
    {
        let s = i16_from_le(bytes[j], bytes[j + 1]);
        samples.push(s);
        j = j + 2;
    }
    samples
}

} // verus!
