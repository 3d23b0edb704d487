//! The encode worker's decision logic.
//!
//! One dedicated worker consumes captured chunks in order: it accumulates
//! them into frames, hands each frame in turn to the stateful codec, and
//! publishes each packet the codec returns. An encode failure is fatal —
//! the codec's internal state cannot be recovered mid-stream — so the
//! worker latches a failed state and accepts no further work. A
//! low-frequency metering tick reads and resets byte counters without
//! touching the data path.
//!
//! The codec call itself is made by the worker's host between `on_chunk`
//! (which yields the frames to encode, in order) and `on_encoded` (which
//! takes what the codec returned and decides what to do with it).

use vstd::prelude::*;

use crate::framing::FrameAccumulator;
use crate::framing::frame_views;
use crate::framing::spec_zero_pad;

verus! {

/// What the worker decides after one codec call.
pub enum EncodeStep {
    /// The codec produced a packet: publish it downstream.
    Publish(Vec<u8>),
    /// The codec failed: the pipeline terminates, nothing is resumed.
    Fatal,
}

/// The encode worker's state: the frame accumulator, the fatal-failure
/// latch, and the metering counters since the last tick.
pub struct EncoderWorker {
    accumulator: FrameAccumulator,
    failed: bool,
    samples_in: u64,
    bytes_out: u64,
}

impl EncoderWorker {
    /// Whether a codec failure has terminated this worker.
    pub closed spec fn spec_failed(&self) -> bool {
        self.failed
    }

    /// Samples accepted since the last metering tick.
    pub closed spec fn spec_samples_in(&self) -> int {
        self.samples_in as int
    }

    /// Packet bytes produced since the last metering tick.
    pub closed spec fn spec_bytes_out(&self) -> int {
        self.bytes_out as int
    }

    /// The accumulator's state, for contracts over the sample stream.
    pub closed spec fn spec_accumulator(&self) -> FrameAccumulator {
        self.accumulator
    }

    /// Internal consistency.
    pub open spec fn wf(&self) -> bool {
        self.spec_accumulator().wf()
    }

    /// A fresh worker for frames of `frame_size` samples.
    pub fn new(frame_size: usize, ring_frames: usize) -> (w: Self)
        requires
            frame_size >= 1,
            ring_frames >= 1,
            frame_size * ring_frames <= usize::MAX,
        ensures
            w.wf(),
            w.spec_accumulator().stream_consistent(),
            !w.spec_failed(),
            w.spec_samples_in() == 0,
            w.spec_bytes_out() == 0,
            w.spec_accumulator().spec_frame_size() == frame_size as int,
            w.spec_accumulator().spec_fed() == Seq::<i16>::empty(),
            w.spec_accumulator().spec_frames() == Seq::<Seq<i16>>::empty(),
    {
        EncoderWorker {
            accumulator: FrameAccumulator::new(frame_size, ring_frames),
            failed: false,
            samples_in: 0,
            bytes_out: 0,
        }
    }

    /// Accepts one captured chunk, counts it for metering (saturating: the
    /// meter is observability, not data), and returns the full frames now
    /// ready for the codec, in stream order.
    pub fn on_chunk(&mut self, chunk: &Vec<i16>) -> (frames: Vec<Vec<i16>>)
        requires
            old(self).wf(),
            !old(self).spec_failed(),
        ensures
            final(self).wf(),
            final(self).spec_accumulator().stream_consistent(),
            !final(self).spec_failed(),
            final(self).spec_accumulator().spec_frame_size() == old(
                self,
            ).spec_accumulator().spec_frame_size(),
            final(self).spec_accumulator().spec_fed() == old(self).spec_accumulator().spec_fed()
                + chunk@,
            final(self).spec_accumulator().spec_frames() == old(
                self,
            ).spec_accumulator().spec_frames() + frame_views(frames@),
            final(self).spec_samples_in() == if old(self).spec_samples_in() + chunk@.len()
                <= u64::MAX {
                old(self).spec_samples_in() + chunk@.len()
            } else {
                u64::MAX as int
            },
            final(self).spec_bytes_out() == old(self).spec_bytes_out(),
    {
        let add = chunk.len() as u64;
        if self.samples_in <= u64::MAX - add {
            self.samples_in = self.samples_in + add;
        } else {
            self.samples_in = u64::MAX;
        }
        self.accumulator.push(chunk)
    }

    /// Takes what the codec returned for one frame. A packet is published;
    /// a failure is fatal: the worker latches the failed state and the
    /// pipeline must shut down, since the codec cannot resume mid-stream.
    pub fn on_encoded(&mut self, encoded: Option<Vec<u8>>) -> (step: EncodeStep)
        requires
            old(self).wf(),
            !old(self).spec_failed(),
        ensures
            final(self).wf(),
            final(self).spec_accumulator() == old(self).spec_accumulator(),
            final(self).spec_samples_in() == old(self).spec_samples_in(),
            encoded matches Some(packet) ==> {
                &&& step == EncodeStep::Publish(packet)
                &&& !final(self).spec_failed()
                &&& final(self).spec_bytes_out() == if old(self).spec_bytes_out() + packet@.len()
                    <= u64::MAX {
                    old(self).spec_bytes_out() + packet@.len()
                } else {
                    u64::MAX as int
                }
            },
            encoded is None ==> step == EncodeStep::Fatal && final(self).spec_failed()
                && final(self).spec_bytes_out() == old(self).spec_bytes_out(),
    {
        match encoded {
            Some(packet) => {
                let add = packet.len() as u64;
                if self.bytes_out <= u64::MAX - add {
                    self.bytes_out = self.bytes_out + add;
                } else {
                    self.bytes_out = u64::MAX;
                }
                EncodeStep::Publish(packet)
            },
            None => {
                self.failed = true;
                EncodeStep::Fatal
            },
        }
    }

    /// The metering tick: reports samples in and bytes out since the last
    /// tick and resets both counters. Off the data path.
    pub fn on_tick(&mut self) -> (counts: (u64, u64))
        ensures
            counts.0 == old(self).spec_samples_in(),
            counts.1 == old(self).spec_bytes_out(),
            final(self).spec_samples_in() == 0,
            final(self).spec_bytes_out() == 0,
            final(self).spec_accumulator() == old(self).spec_accumulator(),
            final(self).spec_failed() == old(self).spec_failed(),
    {
        let counts = (self.samples_in, self.bytes_out);
        self.samples_in = 0;
        self.bytes_out = 0;
        counts
    }

    /// The source closed: flushes the accumulator. A returned final frame
    /// (the remaining samples, zero-padded to full length) must still be
    /// handed to the codec and its packet published before shutdown.
    /// Afterwards every frame ever emitted reassembles exactly the fed
    /// samples, zero-padded to a whole number of frames.
    pub fn on_close(&mut self) -> (tail: Option<Vec<i16>>)
        requires
            old(self).wf(),
        ensures
            final(self).wf(),
            final(self).spec_accumulator().stream_consistent(),
            final(self).spec_accumulator().spec_frames().flatten() == spec_zero_pad(
                old(self).spec_accumulator().spec_fed(),
                old(self).spec_accumulator().spec_frame_size(),
            ),
            old(self).spec_accumulator().spec_pending().len() == 0 ==> tail is None,
            old(self).spec_accumulator().spec_pending().len() > 0 ==> (tail matches Some(f)
                && final(self).spec_accumulator().spec_frames()
                == old(self).spec_accumulator().spec_frames().push(f@)),
            final(self).spec_failed() == old(self).spec_failed(),
    {
        self.accumulator.close()
    }
}

} // verus!
