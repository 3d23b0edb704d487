//! Fan-out of encoded packets to independent subscribers.
//!
//! The distributor keeps the stream of published packets and hands each
//! subscriber its own cursor into that stream. Two interchangeable
//! backpressure policies are offered:
//!
//! - **Bounded-lag broadcast**: the last `capacity` packets are retained.
//!   A subscriber that falls further behind first receives a lag report
//!   carrying the number of packets it missed, then resumes from the oldest
//!   retained packet.
//! - **Latest-value**: only the newest packet is retained. A subscriber
//!   always receives the newest packet it has not yet observed; anything
//!   older is silently skipped, with no lag report.
//!
//! Publishing never blocks on subscriber behaviour: a subscriber that never
//! polls cannot stall the producer. Closing the producer lets every
//! subscription drain what it can still observe and then yields a terminal
//! closed result, for existing and future polls alike.

use vstd::prelude::*;

verus! {

/// The views of a sequence of packets: each packet as its byte sequence.
pub open spec fn packet_views(s: Seq<Vec<u8>>) -> Seq<Seq<u8>> {
    Seq::new(s.len(), |i: int| s[i]@)
}

/// The backpressure policy a distributor was configured with.
#[derive(Clone, Copy, PartialEq, Eq, Structural)]
pub enum Policy {
    /// Keep the last `capacity` packets per subscriber; report lag on overflow.
    BoundedLag,
    /// Keep only the newest packet; skip silently.
    LatestValue,
}

/// The outcome of polling a subscription.
pub enum Next {
    /// The next packet for this subscriber, in publication order.
    Packet(Vec<u8>),
    /// This subscriber fell behind and the carried number of packets were
    /// evicted unread; delivery resumes from the oldest retained packet.
    Lagged(u64),
    /// The producer closed and nothing observable remains.
    Closed,
    /// Nothing new yet: the caller should wait for a publication or for the
    /// close, then poll again.
    Pending,
}

/// Fan-out state: the packet stream, the retention window and the close flag.
pub struct Distributor {
    policy: Policy,
    capacity: usize,
    /// The retained packets: the last `min(total, capacity)` published,
    /// oldest first.
    buffer: Vec<Vec<u8>>,
    /// Number of packets ever published.
    total: u64,
    closed: bool,
    /// Every packet ever published, in order.
    history: Ghost<Seq<Seq<u8>>>,
}

/// A subscriber's private cursor into a distributor's stream: the position
/// of the next packet it has not yet observed, and the number of packets it
/// has missed so far.
pub struct Subscription {
    cursor: u64,
    missed_total: u64,
}

impl Subscription {
    /// Position in the packet stream of the next packet this subscriber has
    /// not yet observed.
    pub closed spec fn spec_cursor(&self) -> int {
        self.cursor as int
    }

    /// Total number of packets this subscriber has missed to lag so far.
    pub closed spec fn spec_missed_total(&self) -> int {
        self.missed_total as int
    }

    /// Packets missed so far, for observability.
    pub fn missed_total(&self) -> (n: u64)
        ensures
            n == self.spec_missed_total(),
    {
        self.missed_total
    }
}

impl Distributor {
    /// The packets published so far, in publication order.
    pub closed spec fn spec_history(&self) -> Seq<Seq<u8>> {
        self.history@
    }

    /// Whether the producer has closed the stream.
    pub closed spec fn spec_closed(&self) -> bool {
        self.closed
    }

    /// The configured policy.
    pub closed spec fn spec_policy(&self) -> Policy {
        self.policy
    }

    /// The retention capacity: how many packets a subscriber can fall
    /// behind before losing data.
    pub closed spec fn spec_capacity(&self) -> int {
        self.capacity as int
    }

    /// Position of the oldest packet still retained.
    pub open spec fn spec_oldest_retained(&self) -> int {
        self.spec_history().len() - self.spec_retained()
    }

    /// Number of packets still retained.
    pub open spec fn spec_retained(&self) -> int {
        if self.spec_history().len() <= self.spec_capacity() {
            self.spec_history().len() as int
        } else {
            self.spec_capacity()
        }
    }

    /// Internal consistency: the buffer holds exactly the last
    /// `min(total, capacity)` published packets, oldest first.
    pub closed spec fn wf(&self) -> bool {
        &&& self.capacity >= 1
        &&& (self.policy == Policy::LatestValue ==> self.capacity == 1)
        &&& self.history@.len() == self.total as int
        &&& self.buffer@.len() == self.spec_retained()
        &&& packet_views(self.buffer@) == self.history@.skip(self.spec_oldest_retained())
    }

    /// A bounded-lag distributor retaining the last `capacity` packets per
    /// subscriber.
    pub fn new_bounded_lag(capacity: usize) -> (d: Self)
        requires
            capacity >= 1,
        ensures
            d.wf(),
            d.spec_policy() == Policy::BoundedLag,
            d.spec_capacity() == capacity as int,
            d.spec_history() == Seq::<Seq<u8>>::empty(),
            !d.spec_closed(),
    {
        let d = Distributor {
            policy: Policy::BoundedLag,
            capacity,
            buffer: Vec::new(),
            total: 0,
            closed: false,
            history: Ghost(Seq::empty()),
        };
        proof {
            assert(packet_views(d.buffer@) =~= d.history@.skip(0));
        }
        d
    }

    /// A latest-value distributor: a single slot holding only the newest
    /// published packet.
    pub fn new_latest_value() -> (d: Self)
        ensures
            d.wf(),
            d.spec_policy() == Policy::LatestValue,
            d.spec_capacity() == 1,
            d.spec_history() == Seq::<Seq<u8>>::empty(),
            !d.spec_closed(),
    {
        let d = Distributor {
            policy: Policy::LatestValue,
            capacity: 1,
            buffer: Vec::new(),
            total: 0,
            closed: false,
            history: Ghost(Seq::empty()),
        };
        proof {
            assert(packet_views(d.buffer@) =~= d.history@.skip(0));
        }
        d
    }

    /// Publishes one packet: it is appended to the stream and, if the
    /// retention window was full, the oldest retained packet is evicted.
    /// Publication depends in no way on any subscriber, so a slow or absent
    /// subscriber cannot stall the producer.
    pub fn publish(&mut self, packet: Vec<u8>)
        requires
            old(self).wf(),
            !old(self).spec_closed(),
            old(self).spec_history().len() < u64::MAX,
        ensures
            final(self).wf(),
            final(self).spec_history() == old(self).spec_history().push(packet@),
            final(self).spec_policy() == old(self).spec_policy(),
            final(self).spec_capacity() == old(self).spec_capacity(),
            !final(self).spec_closed(),
    {
        let evicted = self.buffer.len() == self.capacity;
        if evicted {
            self.buffer.remove(0);
        }
        self.buffer.push(packet);
        self.total = self.total + 1;
        proof {
            let h0 = old(self).history@;
            let b0 = old(self).buffer@;
            let old0 = old(self).spec_oldest_retained();
            self.history@ = h0.push(packet@);
            let h1 = self.history@;
            let b2 = self.buffer@;
            let old1 = self.spec_oldest_retained();
            assert forall|i: int| 0 <= i < b2.len() implies b2[i]@ == h1.skip(old1)[i] by {
                if i < b2.len() - 1 {
                    if evicted {
                        assert(b2[i] == b0[i + 1]);
                        assert(b0[i + 1]@ == packet_views(b0)[i + 1]);
                        assert(packet_views(b0)[i + 1] == h0.skip(old0)[i + 1]);
                    } else {
                        assert(b2[i] == b0[i]);
                        assert(b0[i]@ == packet_views(b0)[i]);
                        assert(packet_views(b0)[i] == h0.skip(old0)[i]);
                    }
                } else {
                    assert(b2[i] == packet);
                }
            }
            assert(packet_views(b2) =~= h1.skip(old1));
        }
    }

    /// Closes the stream. Nothing further will be published; every
    /// subscription will drain what it can still observe and then receive
    /// `Next::Closed` forever.
    pub fn close(&mut self)
        requires
            old(self).wf(),
        ensures
            final(self).wf(),
            final(self).spec_closed(),
            final(self).spec_history() == old(self).spec_history(),
            final(self).spec_policy() == old(self).spec_policy(),
            final(self).spec_capacity() == old(self).spec_capacity(),
    {
        self.closed = true;
    }

    /// Creates an independent subscription positioned at the current end of
    /// the stream: it will observe exactly the packets published after this
    /// call, subject to the backpressure policy.
    pub fn subscribe(&self) -> (s: Subscription)
        requires
            self.wf(),
        ensures
            s.spec_cursor() == self.spec_history().len(),
            s.spec_missed_total() == 0,
    {
        Subscription { cursor: self.total, missed_total: 0 }
    }
}

impl Subscription {
    /// Polls this subscription against the distributor: the decision step
    /// of `next()`. The actual waiting, when `Next::Pending` is returned,
    /// is the caller's affair.
    ///
    /// Under the bounded-lag policy: a subscriber that fell behind the
    /// retention window first receives `Lagged` with the exact number of
    /// packets it missed, and resumes from the oldest retained packet;
    /// otherwise it receives the packet at its cursor, in publication
    /// order and without gaps within the retained window.
    ///
    /// Under the latest-value policy: the subscriber receives the newest
    /// published packet if it has not observed it yet; everything older is
    /// skipped silently and is never observable.
    ///
    /// Once the stream is closed and nothing observable remains, every
    /// further poll returns `Closed`.
    pub fn next(&mut self, dist: &Distributor) -> (r: Next)
        requires
            dist.wf(),
            old(self).spec_cursor() <= dist.spec_history().len(),
            old(self).spec_missed_total() <= old(self).spec_cursor(),
        ensures
            final(self).spec_cursor() <= dist.spec_history().len(),
            final(self).spec_missed_total() <= final(self).spec_cursor(),
            dist.spec_policy() == Policy::BoundedLag ==> {
                let oldest = dist.spec_oldest_retained();
                if old(self).spec_cursor() < oldest {
                    &&& r == Next::Lagged((oldest - old(self).spec_cursor()) as u64)
                    &&& final(self).spec_cursor() == oldest
                    &&& final(self).spec_missed_total() == old(self).spec_missed_total() + (oldest
                        - old(self).spec_cursor())
                } else if old(self).spec_cursor() < dist.spec_history().len() {
                    &&& r matches Next::Packet(p) && p@ == dist.spec_history()[old(
                        self,
                    ).spec_cursor()]
                    &&& final(self).spec_cursor() == old(self).spec_cursor() + 1
                    &&& final(self).spec_missed_total() == old(self).spec_missed_total()
                } else if dist.spec_closed() {
                    &&& r is Closed
                    &&& *final(self) == *old(self)
                } else {
                    &&& r is Pending
                    &&& *final(self) == *old(self)
                }
            },
            dist.spec_policy() == Policy::LatestValue ==> {
                if old(self).spec_cursor() < dist.spec_history().len() {
                    &&& r matches Next::Packet(p) && p@ == dist.spec_history().last()
                    &&& final(self).spec_cursor() == dist.spec_history().len()
                } else if dist.spec_closed() {
                    &&& r is Closed
                    &&& *final(self) == *old(self)
                } else {
                    &&& r is Pending
                    &&& *final(self) == *old(self)
                }
            },
    {
        match dist.policy {
            Policy::BoundedLag => {
                let oldest: u64 = dist.total - (dist.buffer.len() as u64);
                if self.cursor < oldest {
                    let missed = oldest - self.cursor;
                    self.cursor = oldest;
                    self.missed_total = self.missed_total + missed;
                    Next::Lagged(missed)
                } else if self.cursor < dist.total {
                    let idx: usize = (self.cursor - oldest) as usize;
                    let p = dist.buffer[idx].clone();
                    proof {
                        lemma_packet_clone(dist.buffer@[idx as int], p);
                        assert(dist.buffer@[idx as int]@ == packet_views(dist.buffer@)[idx as int]);
                        assert(packet_views(dist.buffer@)[idx as int] == dist.spec_history().skip(
                            dist.spec_oldest_retained(),
                        )[idx as int]);
                    }
                    self.cursor = self.cursor + 1;
                    Next::Packet(p)
                } else if dist.closed {
                    Next::Closed
                } else {
                    Next::Pending
                }
            },
            Policy::LatestValue => {
                if self.cursor < dist.total {
                    let idx: usize = dist.buffer.len() - 1;
                    let p = dist.buffer[idx].clone();
                    proof {
                        lemma_packet_clone(dist.buffer@[idx as int], p);
                        assert(dist.buffer@[idx as int]@ == packet_views(dist.buffer@)[idx as int]);
                        assert(packet_views(dist.buffer@)[idx as int] == dist.spec_history().skip(
                            dist.spec_oldest_retained(),
                        )[idx as int]);
                    }
                    self.cursor = dist.total;
                    Next::Packet(p)
                } else if dist.closed {
                    Next::Closed
                } else {
                    Next::Pending
                }
            },
        }
    }
}

/// A clone of a packet holds the same bytes: byte-wise, each cloned `u8`
/// equals its original.
proof fn lemma_packet_clone(a: Vec<u8>, b: Vec<u8>)
    requires
        a@.len() == b@.len(),
        forall|i: int| #![all_triggers] 0 <= i < a@.len() ==> vstd::pervasive::cloned::<u8>(a@[i], b@[i]),
    ensures
        a@ == b@,
{
    assert forall|i: int| 0 <= i < a@.len() implies a@[i] == b@[i] by {
        assert(vstd::pervasive::cloned::<u8>(a@[i], b@[i]));
    }
    assert(a@ =~= b@);
}

} // verus!
