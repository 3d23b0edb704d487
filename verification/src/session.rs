//! The per-connection writer's decision logic.
//!
//! One `SessionWriter` serves one accepted connection: it drains its own
//! subscription and writes each packet fully to that connection's outbound
//! stream before asking for the next, so packet order is preserved and no
//! two writes on one stream overlap. A lag report is recorded and delivery
//! continues; the closed signal ends the session; a write failure ends
//! this session and nothing else — writers share no mutable state beyond
//! their independent subscriptions, so a failed or slow session cannot
//! affect the distributor or any sibling.
//!
//! The actual stream write (and the waiting, when nothing is pending) is
//! the host's affair: `poll` decides, `on_write_result` takes the write's
//! outcome.

use vstd::prelude::*;

use crate::distributor::Distributor;
use crate::distributor::Next;
use crate::distributor::Policy;
use crate::distributor::Subscription;

verus! {

/// What the session should do next.
pub enum WriteStep {
    /// Write this packet fully to the outbound stream, then poll again.
    Send(Vec<u8>),
    /// The subscription lagged: this many packets were missed. Record it
    /// and continue; the stream content is not altered.
    RecordLag(u64),
    /// Nothing to deliver yet: wait for a publication or the close, then
    /// poll again.
    Wait,
    /// The distributor closed: the session is over, close the stream.
    Finished,
}

/// One connection's writer: its private subscription, its termination
/// flag, and a count of lag reports recorded.
pub struct SessionWriter {
    subscription: Subscription,
    terminated: bool,
    lag_reports: u64,
}

impl SessionWriter {
    /// Whether this session has ended (stream closed or write failed).
    pub closed spec fn spec_terminated(&self) -> bool {
        self.terminated
    }

    /// This writer's own cursor into the packet stream.
    pub closed spec fn spec_subscription(&self) -> Subscription {
        self.subscription
    }

    /// Lag reports recorded so far.
    pub closed spec fn spec_lag_reports(&self) -> int {
        self.lag_reports as int
    }

    /// Validity of this writer against the distributor it subscribes to.
    pub open spec fn wf(&self, dist: Distributor) -> bool {
        &&& self.spec_subscription().spec_cursor() <= dist.spec_history().len()
        &&& self.spec_subscription().spec_missed_total() <= self.spec_subscription().spec_cursor()
    }

    /// A writer for one accepted connection, on its own independent
    /// subscription.
    pub fn new(subscription: Subscription) -> (w: Self)
        ensures
            !w.spec_terminated(),
            w.spec_subscription() == subscription,
            w.spec_lag_reports() == 0,
    {
        SessionWriter { subscription, terminated: false, lag_reports: 0 }
    }

    /// One decision step: polls this writer's subscription and says what
    /// to do. A packet is to be written out in full before the next poll;
    /// a lag report is recorded (never altering stream content); the
    /// closed signal terminates the session.
    pub fn poll(&mut self, dist: &Distributor) -> (step: WriteStep)
        requires
            dist.wf(),
            old(self).wf(*dist),
            !old(self).spec_terminated(),
        ensures
            final(self).wf(*dist),
            dist.spec_policy() == Policy::BoundedLag ==> {
                let oldest = dist.spec_oldest_retained();
                let cursor = old(self).spec_subscription().spec_cursor();
                if cursor < oldest {
                    &&& step == WriteStep::RecordLag((oldest - cursor) as u64)
                    &&& !final(self).spec_terminated()
                    &&& final(self).spec_lag_reports() == if old(self).spec_lag_reports() + 1
                        <= u64::MAX {
                        old(self).spec_lag_reports() + 1
                    } else {
                        u64::MAX as int
                    }
                    &&& final(self).spec_subscription().spec_cursor() == oldest
                } else if cursor < dist.spec_history().len() {
                    &&& step matches WriteStep::Send(p) && p@ == dist.spec_history()[cursor]
                    &&& !final(self).spec_terminated()
                    &&& final(self).spec_subscription().spec_cursor() == cursor + 1
                } else if dist.spec_closed() {
                    &&& step is Finished
                    &&& final(self).spec_terminated()
                } else {
                    &&& step is Wait
                    &&& !final(self).spec_terminated()
                    &&& *final(self) == *old(self)
                }
            },
            dist.spec_policy() == Policy::LatestValue ==> {
                let cursor = old(self).spec_subscription().spec_cursor();
                if cursor < dist.spec_history().len() {
                    &&& step matches WriteStep::Send(p) && p@ == dist.spec_history().last()
                    &&& !final(self).spec_terminated()
                    &&& final(self).spec_subscription().spec_cursor() == dist.spec_history().len()
                } else if dist.spec_closed() {
                    &&& step is Finished
                    &&& final(self).spec_terminated()
                } else {
                    &&& step is Wait
                    &&& !final(self).spec_terminated()
                    &&& *final(self) == *old(self)
                }
            },
    {
        match self.subscription.next(dist) {
            Next::Packet(p) => WriteStep::Send(p),
            Next::Lagged(missed) => {
                if self.lag_reports < u64::MAX {
                    self.lag_reports = self.lag_reports + 1;
                }
                WriteStep::RecordLag(missed)
            },
            Next::Closed => {
                self.terminated = true;
                WriteStep::Finished
            },
            Next::Pending => WriteStep::Wait,
        }
    }

    /// Takes the outcome of writing one packet to this session's stream.
    /// A failed write (the peer is gone) terminates this session and this
    /// session alone: the function touches nothing but this writer's own
    /// flag, so the distributor and every sibling session are unaffected.
    pub fn on_write_result(&mut self, ok: bool)
        ensures
            final(self).spec_terminated() == (old(self).spec_terminated() || !ok),
            final(self).spec_subscription() == old(self).spec_subscription(),
            final(self).spec_lag_reports() == old(self).spec_lag_reports(),
    {
        if !ok {
            self.terminated = true;
        }
    }
}

/// The state a writer is left in by a failed write: terminated, with its
/// subscription and lag history intact.
pub closed spec fn spec_after_failed_write(w: SessionWriter) -> SessionWriter {
    SessionWriter { terminated: true, ..w }
}

/// A write failure on one session is local to it. In a group of writers
/// sharing one distributor, failing writer `i` terminates that writer
/// alone: every other writer is exactly the state it was, and so is the
/// distributor — so what every sibling subscription will deliver next is
/// exactly what it would have delivered anyway.
pub proof fn lemma_write_failure_is_local(
    dist: Distributor,
    writers: Seq<SessionWriter>,
    i: int,
)
    requires
        0 <= i < writers.len(),
    ensures
        ({
            let after = writers.update(i, spec_after_failed_write(writers[i]));
            &&& after[i].spec_terminated()
            &&& after[i].spec_subscription() == writers[i].spec_subscription()
            &&& after[i].spec_lag_reports() == writers[i].spec_lag_reports()
            &&& after.len() == writers.len()
            &&& forall|j: int| 0 <= j < writers.len() && j != i ==> after[j] == writers[j]
        }),
{
}

} // verus!
