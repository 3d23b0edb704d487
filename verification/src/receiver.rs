//! The client receiver's decision logic.
//!
//! A client reads the inbound byte stream one packet at a time, hands each
//! packet to the codec's decoder, and forwards the decoded PCM to playback
//! scheduling. Decode failures are non-fatal: the packet is skipped and the
//! stream self-heals on the next valid packet. The decode call itself is
//! made by the receiver's host between `on_packet` (which stamps and counts
//! the packet) and `on_decoded` (which takes what the decoder returned and
//! decides what to do with it).

use vstd::prelude::*;

verus! {

/// What to do with one received packet.
pub enum PacketStep {
    /// Decode it, presenting it to the codec with this timestamp.
    Decode { timestamp_us: u64 },
    /// It carries no payload: skip it.
    Skip,
}

/// What to do with one decode outcome.
pub enum DecodedStep {
    /// Play the buffer. `expected_length` records whether it holds the
    /// frame length the stream was configured for (a mismatch is worth a
    /// log line, nothing more).
    Play { expected_length: bool },
    /// Decoding failed or produced nothing: skip this packet and continue
    /// with the next. Never fatal.
    Skip,
}

/// Per-connection receiver state: the fixed per-packet duration and how
/// many payload-carrying packets arrived so far.
pub struct ClientReceiver {
    frame_duration_us: u64,
    received: u64,
}

impl ClientReceiver {
    /// Duration of one packet in microseconds.
    pub closed spec fn spec_frame_duration_us(&self) -> int {
        self.frame_duration_us as int
    }

    /// Payload-carrying packets received so far.
    pub closed spec fn spec_received(&self) -> int {
        self.received as int
    }

    /// A receiver for a stream whose packets each carry `frame_ms`
    /// milliseconds of audio.
    pub fn new(frame_ms: u32) -> (r: Self)
        ensures
            r.spec_frame_duration_us() == frame_ms * 1000,
            r.spec_received() == 0,
    {
        ClientReceiver { frame_duration_us: (frame_ms as u64) * 1000, received: 0 }
    }

    /// Accepts one packet of `payload_len` bytes from the stream. An empty
    /// packet is skipped; any other is counted and stamped with the time at
    /// which its audio belongs in the stream: packets carry fixed-duration
    /// frames, so packet `k` (counting from zero) is stamped `k` durations
    /// in.
    pub fn on_packet(&mut self, payload_len: usize) -> (step: PacketStep)
        requires
            old(self).spec_received() < u64::MAX,
            old(self).spec_received() * old(self).spec_frame_duration_us() + old(
                self,
            ).spec_frame_duration_us() <= u64::MAX,
        ensures
            final(self).spec_frame_duration_us() == old(self).spec_frame_duration_us(),
            payload_len == 0 ==> step == PacketStep::Skip && final(self).spec_received() == old(
                self,
            ).spec_received(),
            payload_len > 0 ==> step == (PacketStep::Decode {
                timestamp_us: (old(self).spec_received() * old(self).spec_frame_duration_us())
                    as u64,
            }) && final(self).spec_received() == old(self).spec_received() + 1,
    {
        if payload_len == 0 {
            return PacketStep::Skip;
        }
        proof {
            let r = self.spec_received();
            let d = self.spec_frame_duration_us();
            assert(0 <= r * d) by (nonlinear_arith)
                requires r >= 0 && d >= 0;
        }
        let timestamp_us = self.received * self.frame_duration_us;
        self.received = self.received + 1;
        PacketStep::Decode { timestamp_us }
    }

    /// Takes what the decoder returned for one packet: a failure or an
    /// empty buffer is skipped — decoding continues with the next packet —
    /// and anything else is played, noting whether it has the configured
    /// frame length.
    pub fn on_decoded(&self, pcm: &Option<Vec<i16>>, expected_samples: usize) -> (step: DecodedStep)
        ensures
            pcm is None ==> step == DecodedStep::Skip,
            pcm matches Some(buf) ==> (buf@.len() == 0 ==> step == DecodedStep::Skip) && (
            buf@.len() > 0 ==> step == (DecodedStep::Play {
                expected_length: buf@.len() == expected_samples as int,
            })),
    {
        match pcm {
            None => DecodedStep::Skip,
            Some(buf) => {
                if buf.len() == 0 {
                    DecodedStep::Skip
                } else {
                    DecodedStep::Play { expected_length: buf.len() == expected_samples }
                }
            },
        }
    }
}

} // verus!
