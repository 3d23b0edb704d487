//! Fixed audio-format parameters of the stream.
//!
//! Audio is single-channel signed 16-bit PCM at a fixed sample rate; the
//! codec consumes frames of a fixed duration, so the frame length in
//! samples is `rate * duration_ms / 1000`.

use vstd::prelude::*;

verus! {

/// Samples per second of the PCM stream.
pub const SAMPLE_RATE: u32 = 48_000;

/// Duration of one codec frame, in milliseconds.
pub const FRAME_DURATION_MS: u32 = 10;

/// Samples in one codec frame at the fixed rate and duration.
pub const SAMPLES_PER_FRAME: u32 = (SAMPLE_RATE * FRAME_DURATION_MS) / 1000;

/// Number of samples in one frame: `rate * frame_ms / 1000`.
pub open spec fn spec_samples_per_frame(rate: u32, frame_ms: u32) -> int {
    (rate * frame_ms) / 1000
}

/// Computes the fixed frame length F from the sample rate and the frame
/// duration in milliseconds.
pub fn samples_per_frame(rate: u32, frame_ms: u32) -> (f: usize)
    requires
        rate * frame_ms <= u32::MAX,
    ensures
        f == spec_samples_per_frame(rate, frame_ms),
{
    ((rate * frame_ms) / 1000) as usize
}

} // verus!
