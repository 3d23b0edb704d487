//! Accumulation of arbitrarily-sized PCM chunks into fixed-size frames.
//!
//! Capture hands the pipeline chunks of signed 16-bit samples whose sizes
//! bear no relation to the codec's frame length F. The `FrameAccumulator`
//! buffers incoming samples in a bounded ring buffer and emits one frame
//! per F buffered samples, preserving sample order; closing the source
//! zero-pads whatever remains to a final full frame. No sample is dropped
//! and none is reordered: the concatenation of all emitted frames is the
//! concatenation of all inputs, zero-padded to the next multiple of F.

use vstd::prelude::*;
use ringbuf::traits::{Consumer, Observer, Producer};

verus! {

/// A bounded single-threaded ring buffer of samples, held in ringbuf's
/// heap-backed `LocalRb`. The buffer itself is opaque to the verifier: its
/// contents and its capacity are named by `ring_samples` and
/// `ring_capacity`, and the contracts of the functions below state, over
/// those names, what ringbuf's source shows of each call.
#[verifier::external_body]
pub struct SampleRing {
    rb: ringbuf::rb::local::LocalRb<ringbuf::storage::Heap<i16>>,
}

/// The samples currently buffered in a ring, oldest first.
pub uninterp spec fn ring_samples(rb: SampleRing) -> Seq<i16>;

/// The fixed capacity a ring was created with.
pub uninterp spec fn ring_capacity(rb: SampleRing) -> int;

/// Relies on ringbuf's `LocalRb::new`: an empty ring buffer of the given
/// capacity (which must not be zero, or `new` panics).
#[verifier::external_body]
fn ring_new(capacity: usize) -> (rb: SampleRing)
    requires
        capacity >= 1,
    ensures
        ring_samples(rb) == Seq::<i16>::empty(),
        ring_capacity(rb) == capacity as int,
{
    SampleRing { rb: ringbuf::rb::local::LocalRb::new(capacity) }
}

/// Relies on ringbuf's `Producer::push_slice`: appends to the buffer as
/// many samples from the given slice tail as there is vacant room, in
/// order, and returns how many were appended.
#[verifier::external_body]
fn ring_push(rb: &mut SampleRing, samples: &Vec<i16>, start: usize) -> (n: usize)
    requires
        start <= samples@.len(),
        ring_samples(*old(rb)).len() <= ring_capacity(*old(rb)),
    ensures
        ring_capacity(*final(rb)) == ring_capacity(*old(rb)),
        n == if samples@.len() - start <= ring_capacity(*old(rb)) - ring_samples(*old(rb)).len() {
            samples@.len() - start
        } else {
            ring_capacity(*old(rb)) - ring_samples(*old(rb)).len()
        },
        ring_samples(*final(rb)) == ring_samples(*old(rb)) + samples@.subrange(
            start as int,
            start + n,
        ),
{
    rb.rb.push_slice(&samples[start..])
}

/// Relies on ringbuf's `Consumer::pop_slice`: removes the oldest
/// `min(count, buffered)` samples from the buffer and returns them in
/// order.
#[verifier::external_body]
fn ring_pop(rb: &mut SampleRing, count: usize) -> (v: Vec<i16>)
    ensures
        ring_capacity(*final(rb)) == ring_capacity(*old(rb)),
        v@ == if count as int <= ring_samples(*old(rb)).len() {
            ring_samples(*old(rb)).take(count as int)
        } else {
            ring_samples(*old(rb))
        },
        ring_samples(*final(rb)) == ring_samples(*old(rb)).skip(v@.len() as int),
{
    let mut buf = vec![0i16; count];
    let n = rb.rb.pop_slice(&mut buf);
    buf.truncate(n);
    buf
}

/// Relies on ringbuf's `Observer::occupied_len`: the number of samples
/// currently buffered.
#[verifier::external_body]
fn ring_len(rb: &SampleRing) -> (n: usize)
    ensures
        n == ring_samples(*rb).len(),
{
    rb.rb.occupied_len()
}

/// The views of a sequence of frames: each frame as its sample sequence.
pub open spec fn frame_views(s: Seq<Vec<i16>>) -> Seq<Seq<i16>> {
    Seq::new(s.len(), |i: int| s[i]@)
}

/// A run of `n` zero samples.
pub open spec fn spec_zeros(n: int) -> Seq<i16> {
    Seq::new(n as nat, |i: int| 0i16)
}

/// A sample sequence zero-padded to the next multiple of `f` (itself, if
/// its length already is one).
pub open spec fn spec_zero_pad(s: Seq<i16>, f: int) -> Seq<i16> {
    if s.len() % (f as nat) == 0 {
        s
    } else {
        s + spec_zeros(f - s.len() % (f as nat))
    }
}

/// Turns arbitrarily-sized chunks of samples into a strict sequence of
/// frames of exactly `frame_size` samples each.
///
/// Ghost state records every sample ever fed (`fed`) and every frame ever
/// emitted (`frames`); the invariant `wf` ties them together: frame `i` is
/// exactly samples `i*F .. (i+1)*F` of the input stream, and the ring
/// buffer holds exactly the samples not yet emitted (always fewer than F
/// between calls).
pub struct FrameAccumulator {
    frame_size: usize,
    ring: SampleRing,
    /// Every sample fed so far (zero padding included, once closed).
    fed: Ghost<Seq<i16>>,
    /// Every frame emitted so far.
    frames: Ghost<Seq<Seq<i16>>>,
}

impl FrameAccumulator {
    /// The frame length F.
    pub closed spec fn spec_frame_size(&self) -> int {
        self.frame_size as int
    }

    /// Every sample fed so far, in order.
    pub closed spec fn spec_fed(&self) -> Seq<i16> {
        self.fed@
    }

    /// Every frame emitted so far, in order.
    pub closed spec fn spec_frames(&self) -> Seq<Seq<i16>> {
        self.frames@
    }

    /// The samples buffered and not yet emitted.
    pub open spec fn spec_pending(&self) -> Seq<i16> {
        self.spec_fed().skip(self.spec_frames().len() * self.spec_frame_size())
    }

    /// The visible relation between what was fed and what was emitted:
    /// frame `i` is exactly the `i`-th F-sample block of the fed stream
    /// (so frames carry the samples in order, without loss), and fewer
    /// than one frame's worth of samples still await emission.
    pub open spec fn stream_consistent(&self) -> bool {
        &&& self.spec_frame_size() >= 1
        &&& self.spec_frames().len() * self.spec_frame_size() <= self.spec_fed().len()
        &&& forall|i: int|
            0 <= i < self.spec_frames().len() ==> self.spec_frames()[i]
                == self.spec_fed().subrange(
                i * self.spec_frame_size(),
                i * self.spec_frame_size() + self.spec_frame_size(),
            )
        &&& self.spec_pending().len() < self.spec_frame_size()
    }

    /// Internal consistency: the visible stream relation, and the ring
    /// holds exactly the unemitted tail within its capacity.
    pub closed spec fn wf(&self) -> bool {
        &&& self.stream_consistent()
        &&& ring_capacity(self.ring) >= self.frame_size
        &&& ring_samples(self.ring) == self.spec_pending()
    }

    /// An accumulator for frames of `frame_size` samples, buffering at most
    /// `ring_frames` frames' worth of samples at a time.
    pub fn new(frame_size: usize, ring_frames: usize) -> (acc: Self)
        requires
            frame_size >= 1,
            ring_frames >= 1,
            frame_size * ring_frames <= usize::MAX,
        ensures
            acc.wf(),
            acc.stream_consistent(),
            acc.spec_frame_size() == frame_size as int,
            acc.spec_fed() == Seq::<i16>::empty(),
            acc.spec_frames() == Seq::<Seq<i16>>::empty(),
    {
        proof {
            assert(frame_size * 1 <= frame_size * ring_frames) by (nonlinear_arith)
                requires frame_size >= 1 && ring_frames >= 1;
        }
        let capacity = frame_size * ring_frames;
        let acc = FrameAccumulator {
            frame_size,
            ring: ring_new(capacity),
            fed: Ghost(Seq::empty()),
            frames: Ghost(Seq::empty()),
        };
        proof {
            assert(acc.spec_pending() =~= Seq::<i16>::empty());
        }
        acc
    }

    /// Feeds one chunk of captured samples, emitting one frame per F
    /// buffered samples until fewer than F remain. The frames come out in
    /// input order: frame `frames[k]` (counted over the whole stream) holds
    /// exactly samples `k*F .. (k+1)*F` ever fed. No sample is dropped.
    pub fn push(&mut self, chunk: &Vec<i16>) -> (out: Vec<Vec<i16>>)
        requires
            old(self).wf(),
        ensures
            final(self).wf(),
            final(self).stream_consistent(),
            final(self).spec_frame_size() == old(self).spec_frame_size(),
            final(self).spec_fed() == old(self).spec_fed() + chunk@,
            final(self).spec_frames() == old(self).spec_frames() + frame_views(out@),
            forall|i: int| 0 <= i < out@.len() ==> (#[trigger] out@[i])@.len() == old(
                self,
            ).spec_frame_size(),
    {
        let mut out: Vec<Vec<i16>> = Vec::new();
        let mut start: usize = 0;
        let ghost frames0 = self.frames@;
        while start < chunk.len()
            invariant
                self.wf(),
                self.frame_size == old(self).frame_size,
                start <= chunk@.len(),
                self.fed@ == old(self).fed@ + chunk@.take(start as int),
                self.frames@ == frames0 + frame_views(out@),
                forall|i: int| 0 <= i < out@.len() ==> (#[trigger] out@[i])@.len()
                    == self.frame_size,
            decreases chunk@.len() - start,
        {
            let pushed = ring_push(&mut self.ring, chunk, start);
            proof {
                let fed_before = self.fed@;
                let f = self.spec_frame_size();
                self.fed@ = self.fed@ + chunk@.subrange(start as int, start + pushed);
                assert(self.fed@ =~= old(self).fed@ + chunk@.take(start + pushed));
                assert forall|i: int| 0 <= i < self.frames@.len() implies self.frames@[i]
                    == self.fed@.subrange(i * f, i * f + f) by {
                    assert(self.frames@[i] == fed_before.subrange(i * f, i * f + f));
                    assert(0 <= i * f && i * f + f <= self.frames@.len() * f)
                        by (nonlinear_arith)
                        requires 0 <= i < self.frames@.len() && f >= 1;
                    assert(self.fed@.subrange(i * f, i * f + f) =~= fed_before.subrange(
                        i * f,
                        i * f + f,
                    ));
                }
                assert(ring_samples(self.ring) =~= self.spec_pending());
            }
            start = start + pushed;
            while ring_len(&self.ring) >= self.frame_size
                invariant
                    self.frame_size >= 1,
                    ring_capacity(self.ring) >= self.frame_size,
                    self.frames@.len() * self.frame_size <= self.fed@.len(),
                    forall|i: int|
                        0 <= i < self.frames@.len() ==> self.frames@[i] == self.fed@.subrange(
                            i * self.spec_frame_size(),
                            i * self.spec_frame_size() + self.spec_frame_size(),
                        ),
                    ring_samples(self.ring) == self.spec_pending(),
                    self.frame_size == old(self).frame_size,
                    self.fed@ == old(self).fed@ + chunk@.take(start as int),
                    self.frames@ == frames0 + frame_views(out@),
                    forall|i: int| 0 <= i < out@.len() ==> (#[trigger] out@[i])@.len()
                        == self.frame_size,
                decreases ring_samples(self.ring).len(),
            {
                let ghost n = self.frames@.len() as int;
                let ghost f = self.spec_frame_size();
                let frame = ring_pop(&mut self.ring, self.frame_size);
                proof {
                    assert(frame@ == self.spec_pending().take(f));
                    assert(frame@ =~= self.fed@.subrange(n * f, n * f + f)) by {
                        assert(self.spec_pending() == self.fed@.skip(n * f));
                    }
                    self.frames@ = self.frames@.push(frame@);
                    assert(self.frames@ =~= frames0 + frame_views(out@.push(frame)));
                    assert((n + 1) * f == n * f + f) by (nonlinear_arith);
                    assert(ring_samples(self.ring) =~= self.fed@.skip((n + 1) * f));
                }
                out.push(frame);
            }
        }
        proof {
            assert(chunk@.take(chunk@.len() as int) =~= chunk@);
        }
        out
    }

    /// Closes the source and flushes: if any samples remain buffered, they
    /// are zero-padded to one final full frame, which is returned; if none
    /// remain, nothing is emitted. Either way, afterwards the concatenation
    /// of every frame ever emitted is exactly the stream of samples ever
    /// fed, zero-padded to the next multiple of F: no sample was lost and
    /// none was reordered.
    pub fn close(&mut self) -> (tail: Option<Vec<i16>>)
        requires
            old(self).wf(),
        ensures
            final(self).wf(),
            final(self).stream_consistent(),
            final(self).spec_frame_size() == old(self).spec_frame_size(),
            final(self).spec_fed() == spec_zero_pad(
                old(self).spec_fed(),
                old(self).spec_frame_size(),
            ),
            old(self).spec_pending().len() == 0 ==> tail is None && final(self).spec_frames()
                == old(self).spec_frames(),
            old(self).spec_pending().len() > 0 ==> (tail matches Some(last) && last@ == old(
                self,
            ).spec_pending() + spec_zeros(
                old(self).spec_frame_size() - old(self).spec_pending().len(),
            ) && final(self).spec_frames() == old(self).spec_frames().push(last@)),
            final(self).spec_pending().len() == 0,
            final(self).spec_frames().flatten() == spec_zero_pad(
                old(self).spec_fed(),
                old(self).spec_frame_size(),
            ),
    {
        let ghost f = self.spec_frame_size();
        let ghost n = self.frames@.len() as int;
        let rem = ring_len(&self.ring);
        let tail: Option<Vec<i16>>;
        if rem == 0 {
            proof {
                assert(self.fed@.len() == n * f) by {
                    assert(self.spec_pending().len() == 0);
                }
                let fedlen = self.fed@.len() as int;
                assert(fedlen % f == 0) by (nonlinear_arith)
                    requires fedlen == n * f && f >= 1 && n >= 0;
            }
            tail = None;
        } else {
            let mut frame = ring_pop(&mut self.ring, rem);
            proof {
                assert(frame@ =~= self.spec_pending());
            }
            let ghost pending = self.spec_pending();
            while frame.len() < self.frame_size
                invariant
                    pending.len() <= frame@.len() <= self.frame_size,
                    frame@ == pending + spec_zeros(frame@.len() - pending.len()),
                decreases self.frame_size - frame@.len(),
            {
                frame.push(0i16);
                proof {
                    assert(frame@ =~= pending + spec_zeros(frame@.len() - pending.len()));
                }
            }
            proof {
                let pad = f - pending.len();
                assert(pending.len() == rem as int);
                self.fed@ = self.fed@ + spec_zeros(pad);
                assert(self.fed@.len() == n * f + f);
                let fed0 = old(self).fed@;
                let fed1 = self.fed@;
                assert(fed1.len() % (f as nat) == 0) by (nonlinear_arith)
                    requires fed1.len() == n * f + f && f >= 1 && n >= 0;
                assert(fed0.len() % (f as nat) == pending.len()) by (nonlinear_arith)
                    requires
                        fed0.len() == n * f + pending.len() && f >= 1 && n >= 0 && 0
                            < pending.len() < f;
                assert(self.fed@ =~= spec_zero_pad(old(self).fed@, f));
                assert(frame@ =~= self.fed@.subrange(n * f, n * f + f)) by {
                    assert(pending =~= fed0.skip(n * f));
                }
                assert forall|i: int| 0 <= i < self.frames@.len() + 1 implies (self.frames@.push(
                    frame@,
                ))[i] == self.fed@.subrange(i * f, i * f + f) by {
                    if i < self.frames@.len() {
                        assert(self.frames@[i] == fed0.subrange(i * f, i * f + f));
                        assert(0 <= i * f && i * f + f <= n * f) by (nonlinear_arith)
                            requires 0 <= i < n && f >= 1;
                        assert(self.fed@.subrange(i * f, i * f + f) =~= fed0.subrange(
                            i * f,
                            i * f + f,
                        ));
                    }
                }
                self.frames@ = self.frames@.push(frame@);
                assert(self.frames@.len() == n + 1);
                assert((n + 1) * f == n * f + f) by (nonlinear_arith);
                assert(ring_samples(self.ring) =~= Seq::<i16>::empty());
                assert(self.fed@.skip((n + 1) * f) =~= Seq::<i16>::empty());
                assert(ring_samples(self.ring) =~= self.spec_pending());
            }
            tail = Some(frame);
        }
        proof {
            lemma_blocks_flatten(self.fed@, self.frames@, f);
        }
        tail
    }
}

/// The looser, lossy framing policy: each incoming chunk is resized to
/// exactly one frame — truncated past `frame_size` samples, zero-padded
/// below it — so samples are lost or fabricated whenever a chunk does not
/// align with the frame length. The ring-buffer accumulator is the
/// preferred policy; this one is offered as an explicit alternative with a
/// different loss/latency trade-off.
pub fn resize_frame(chunk: &Vec<i16>, frame_size: usize) -> (frame: Vec<i16>)
    requires
        frame_size >= 1,
    ensures
        frame@.len() == frame_size as int,
        chunk@.len() >= frame_size ==> frame@ == chunk@.take(frame_size as int),
        chunk@.len() < frame_size ==> frame@ == chunk@ + spec_zeros(frame_size - chunk@.len()),
{
    let mut frame: Vec<i16> = Vec::new();
    let keep = if chunk.len() >= frame_size {
        frame_size
    } else {
        chunk.len()
    };
    let mut i: usize = 0;
    while i < keep
        invariant
            i <= keep <= chunk@.len(),
            frame@ == chunk@.take(i as int),
        decreases keep - i,
    {
        frame.push(chunk[i]);
        proof {
            assert(frame@ =~= chunk@.take(i + 1));
        }
        i = i + 1;
    }
    while frame.len() < frame_size
        invariant
            keep <= frame@.len() <= frame_size,
            frame@ == chunk@.take(keep as int) + spec_zeros(frame@.len() - keep),
        decreases frame_size - frame@.len(),
    {
        frame.push(0i16);
        proof {
            assert(frame@ =~= chunk@.take(keep as int) + spec_zeros(frame@.len() - keep));
        }
    }
    proof {
        if chunk@.len() >= frame_size {
            assert(frame@ =~= chunk@.take(frame_size as int));
        } else {
            assert(chunk@.take(keep as int) =~= chunk@);
            assert(frame@ =~= chunk@ + spec_zeros(frame_size - chunk@.len()));
        }
    }
    frame
}

/// Zero-padding only appends: the padded stream begins with exactly the
/// original samples in their order, and its length is the least multiple
/// of `f` that holds them all.
pub proof fn lemma_zero_pad_preserves_input(s: Seq<i16>, f: int)
    requires
        f >= 1,
    ensures
        spec_zero_pad(s, f).take(s.len() as int) == s,
        spec_zero_pad(s, f).len() % (f as nat) == 0,
        s.len() <= spec_zero_pad(s, f).len() < s.len() + f,
{
    let r = s.len() % (f as nat);
    if r == 0 {
        assert(spec_zero_pad(s, f).take(s.len() as int) =~= s);
    } else {
        assert(spec_zero_pad(s, f).take(s.len() as int) =~= s);
        let slen = s.len() as int;
        assert((slen + (f - slen % f)) % f == 0) by (nonlinear_arith)
            requires f >= 1 && slen >= 0 && slen % f != 0;
    }
}

/// If a sequence of frames consists of the consecutive `f`-sample blocks
/// of a stream, their concatenation is exactly that stream.
proof fn lemma_blocks_flatten(fed: Seq<i16>, frames: Seq<Seq<i16>>, f: int)
    requires
        f >= 1,
        fed.len() == frames.len() * f,
        forall|i: int|
            0 <= i < frames.len() ==> frames[i] == fed.subrange(i * f, i * f + f),
    ensures
        frames.flatten() == fed,
    decreases frames.len(),
{
    if frames.len() == 0 {
        assert(frames.flatten() =~= fed);
    } else {
        let m = frames.len() - 1;
        let head = fed.take(m * f);
        assert(0 <= m * f && m * f + f == frames.len() * f) by (nonlinear_arith)
            requires m == frames.len() - 1 && frames.len() >= 1 && f >= 1;
        assert forall|i: int| 0 <= i < m implies frames.drop_last()[i] == head.subrange(
            i * f,
            i * f + f,
        ) by {
            assert(frames[i] == fed.subrange(i * f, i * f + f));
            assert(0 <= i * f && i * f + f <= m * f) by (nonlinear_arith)
                requires 0 <= i < m && f >= 1;
            assert(head.subrange(i * f, i * f + f) =~= fed.subrange(i * f, i * f + f));
        }
        lemma_blocks_flatten(head, frames.drop_last(), f);
        frames.drop_last().lemma_flatten_push(frames.last());
        assert(frames.drop_last().push(frames.last()) =~= frames);
        assert(frames.last() == fed.subrange(m * f, m * f + f));
        assert(frames.flatten() =~= head + fed.subrange(m * f, m * f + f));
        assert(head + fed.subrange(m * f, m * f + f) =~= fed);
    }
}

} // verus!
