//! The handoff queue: the single-producer single-consumer FIFO through which
//! the server's receive dispatcher passes decoded requests to its send loop.
//! The queue never drops an entry, and hands requests out in exactly the
//! order they were enqueued, which is what makes the server serve requests in
//! the order they were decoded.

use crate::addr::Endpoint;
use vstd::prelude::*;

verus! {

/// One decoded request waiting to be served: how many filler packets to send,
/// and where to send them. Created by the receive dispatcher, consumed
/// exactly once by the send loop.
#[derive(Clone, Copy, Debug, PartialEq, Eq, Structural)]
pub struct PendingRequest {
    pub packet_count: u32,
    pub source: Endpoint,
}

/// A FIFO of pending requests. Its view is the sequence of queued requests,
/// front first.
pub struct HandoffQueue {
    entries: Vec<PendingRequest>,
}

impl View for HandoffQueue {
    type V = Seq<PendingRequest>;

    closed spec fn view(&self) -> Seq<PendingRequest> {
        self.entries@
    }
}

impl HandoffQueue {
    /// An empty queue.
    pub fn new() -> (q: HandoffQueue)
        ensures
            q@ == Seq::<PendingRequest>::empty(),
    {
        HandoffQueue { entries: Vec::new() }
    }

    /// How many requests are waiting.
    pub fn len(&self) -> (n: usize)
        ensures
            n == self@.len(),
    {
        self.entries.len()
    }

    /// Whether no request is waiting.
    pub fn is_empty(&self) -> (e: bool)
        ensures
            e == (self@.len() == 0),
    {
        self.entries.len() == 0
    }

    /// Adds a request at the back. Nothing already queued moves or is lost.
    pub fn enqueue(&mut self, r: PendingRequest)
        ensures
            final(self)@ == old(self)@.push(r),
    {
        self.entries.push(r);
    }

    /// Removes and returns the request at the front, the oldest one enqueued;
    /// `None` when the queue is empty.
    pub fn dequeue(&mut self) -> (r: Option<PendingRequest>)
        ensures
            old(self)@.len() == 0 ==> r is None && final(self)@ == old(self)@,
            old(self)@.len() > 0 ==> r == Some(old(self)@[0]) && final(self)@ == old(
                self,
            )@.drop_first(),
    {
        if self.entries.len() == 0 {
            None
        } else {
            let front = self.entries.remove(0);
            proof {
                assert(self.entries@ =~= old(self)@.drop_first());
            }
            Some(front)
        }
    }
}

/// First in, first out: whatever already sits in the queue, enqueueing `r1`
/// and then `r2` places `r1` strictly closer to the front. Once everything
/// enqueued earlier has been dequeued, what remains is `r1` and then `r2`,
/// so `r1` is dequeued — and therefore served — before `r2`.
pub proof fn lemma_fifo_order(prior: Seq<PendingRequest>, r1: PendingRequest, r2: PendingRequest)
    ensures
        prior.push(r1).push(r2).skip(prior.len() as int) =~= seq![r1, r2],
{
}

} // verus!
