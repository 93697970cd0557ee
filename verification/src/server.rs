//! The server core: two units share one socket. The receive dispatcher
//! decodes inbound datagrams and enqueues the resulting requests; the send
//! loop pulls requests off the queue in FIFO order and floods each source
//! with the requested number of filler packets, one request to completion
//! before the next. The two sides meet only at the handoff queue, so
//! accepting new requests is never stalled by serving an earlier one.
//!
//! The unverified shell owns the socket and the threads; it feeds each
//! datagram and each send attempt's outcome to the state machine here and
//! performs the transmissions it is told to.

use crate::addr::Endpoint;
use crate::codec;
use crate::config::ProtocolConfig;
use crate::policy::{send_step, RetryStep, SendOutcome};
use crate::queue::{HandoffQueue, PendingRequest};
use vstd::prelude::*;

verus! {

/// The receive dispatcher's decision for one inbound datagram: the pending
/// request to enqueue, or `None` when the datagram is too short to hold a
/// request and is silently dropped.
pub fn dispatch_datagram(bytes: &[u8], source: Endpoint) -> (r: Option<PendingRequest>)
    ensures
        bytes@.len() >= 4 ==> r == Some(
            PendingRequest { packet_count: codec::request_value_of(bytes@), source },
        ),
        bytes@.len() < 4 ==> r is None,
{
    match codec::decode_request(bytes) {
        Ok(packet_count) => Some(PendingRequest { packet_count, source }),
        Err(_) => None,
    }
}

/// The send loop's progress through one request's flood: how many of the
/// `total` filler packets bound for `dest` have been handed to the kernel.
#[derive(Clone, Copy, Debug, PartialEq, Eq, Structural)]
pub struct FloodState {
    pub dest: Endpoint,
    pub total: u32,
    pub sent: u32,
}

/// What the send loop should do next.
#[derive(Clone, Copy, Debug, PartialEq, Eq, Structural)]
pub enum SendWork {
    /// Transmit one filler packet to this destination.
    Transmit(Endpoint),
    /// No flood is in progress: wait for the next pending request.
    AwaitRequest,
}

/// How one send attempt left the flood in progress.
#[derive(Clone, Copy, Debug, PartialEq, Eq, Structural)]
pub enum FloodProgress {
    /// The packet went out; more remain.
    Continue,
    /// Transient backpressure; the same packet must be attempted again.
    Retry,
    /// The packet went out and it was the last one: the request is served.
    Completed,
    /// A genuine I/O error: the rest of this flood is abandoned. The server
    /// itself carries on with later requests.
    Aborted,
}

/// The server's core state: the handoff queue filled by the receive
/// dispatcher, and the send loop's current flood, if one is in progress.
pub struct ServerCore {
    config: ProtocolConfig,
    queue: HandoffQueue,
    flood: Option<FloodState>,
}

impl ServerCore {
    /// The configuration this server was constructed with.
    pub closed spec fn config(self) -> ProtocolConfig {
        self.config
    }

    /// The requests decoded but not yet begun, in the order they were decoded.
    pub closed spec fn pending(self) -> Seq<PendingRequest> {
        self.queue@
    }

    /// The flood the send loop is in the middle of, if any.
    pub closed spec fn flood(self) -> Option<FloodState> {
        self.flood
    }

    /// A flood in progress always has packets left to send: a finished flood
    /// is cleared at once.
    pub open spec fn wf(self) -> bool {
        self.flood() matches Some(f) ==> f.sent < f.total
    }

    /// A freshly started server: nothing pending, no flood in progress.
    pub fn new(config: ProtocolConfig) -> (s: ServerCore)
        ensures
            s.wf(),
            s.config() == config,
            s.pending() == Seq::<PendingRequest>::empty(),
            s.flood() is None,
    {
        ServerCore { config, queue: HandoffQueue::new(), flood: None }
    }

    /// How many requests are waiting to be served.
    pub fn pending_len(&self) -> (n: usize)
        ensures
            n == self.pending().len(),
    {
        self.queue.len()
    }

    /// Whether the send loop is in the middle of a flood.
    pub fn flood_active(&self) -> (b: bool)
        ensures
            b == (self.flood() is Some),
    {
        match self.flood {
            Some(_) => true,
            None => false,
        }
    }

    /// Receive dispatcher: handle one inbound datagram. A well-formed request
    /// (at least four bytes) is decoded and enqueued at the back of the
    /// handoff queue; anything shorter is dropped without effect. The flood
    /// in progress is never touched: accepting requests is independent of
    /// serving them, whatever the send loop is doing.
    pub fn on_datagram(&mut self, bytes: &[u8], source: Endpoint) -> (accepted: bool)
        requires
            old(self).wf(),
        ensures
            final(self).wf(),
            final(self).config() == old(self).config(),
            final(self).flood() == old(self).flood(),
            accepted == (bytes@.len() >= 4),
            accepted ==> final(self).pending() == old(self).pending().push(
                PendingRequest { packet_count: codec::request_value_of(bytes@), source },
            ),
            !accepted ==> final(self).pending() == old(self).pending(),
    {
        match dispatch_datagram(bytes, source) {
            Some(request) => {
                self.queue.enqueue(request);
                true
            },
            None => false,
        }
    }

    /// What the send loop should do now: transmit the next filler packet of
    /// the flood in progress, or await the next pending request.
    pub fn send_work(&self) -> (w: SendWork)
        requires
            self.wf(),
        ensures
            w == (match self.flood() {
                Some(f) => SendWork::Transmit(f.dest),
                None => SendWork::AwaitRequest,
            }),
    {
        match self.flood {
            Some(f) => SendWork::Transmit(f.dest),
            None => SendWork::AwaitRequest,
        }
    }

    /// Send loop: take the request at the front of the queue and begin its
    /// flood. Called only between floods — each request is served to
    /// completion before the next is begun, so requests go out in the order
    /// they were enqueued. A request for zero packets is served on the spot
    /// with no flood. Returns whether a request was dequeued.
    pub fn begin_next(&mut self) -> (started: bool)
        requires
            old(self).wf(),
            old(self).flood() is None,
        ensures
            final(self).wf(),
            final(self).config() == old(self).config(),
            started == (old(self).pending().len() > 0),
            !started ==> final(self).pending() == old(self).pending() && final(self).flood()
                is None,
            started ==> final(self).pending() == old(self).pending().drop_first() && final(self).flood() == (if old(self).pending()[0].packet_count > 0 {
                Some(
                    FloodState {
                        dest: old(self).pending()[0].source,
                        total: old(self).pending()[0].packet_count,
                        sent: 0u32,
                    },
                )
            } else {
                None::<FloodState>
            }),
    {
        match self.queue.dequeue() {
            Some(request) => {
                if request.packet_count > 0 {
                    self.flood = Some(
                        FloodState { dest: request.source, total: request.packet_count, sent: 0 },
                    );
                }
                true
            },
            None => false,
        }
    }

    /// Send loop: account the outcome of one send attempt of the flood in
    /// progress, following the I/O policy. A sent packet advances the flood,
    /// and the last one completes it; transient backpressure leaves the flood
    /// exactly where it was, to be retried — never an error, however often it
    /// recurs; a genuine error abandons the rest of this flood only. The
    /// handoff queue is never touched, so requests accepted meanwhile are
    /// preserved.
    pub fn on_send_outcome(&mut self, outcome: &SendOutcome) -> (p: FloodProgress)
        requires
            old(self).wf(),
            old(self).flood() is Some,
        ensures
            final(self).wf(),
            final(self).config() == old(self).config(),
            final(self).pending() == old(self).pending(),
            outcome is Sent ==> (if old(self).flood()->Some_0.sent + 1 < old(self).flood()->Some_0.total {
                p == FloodProgress::Continue && final(self).flood() == Some(
                    FloodState {
                        dest: old(self).flood()->Some_0.dest,
                        total: old(self).flood()->Some_0.total,
                        sent: (old(self).flood()->Some_0.sent + 1) as u32,
                    },
                )
            } else {
                p == FloodProgress::Completed && final(self).flood() is None
            }),
            outcome is WouldBlock ==> p == FloodProgress::Retry && final(self).flood() == old(self).flood(),
            outcome is Failed ==> p == FloodProgress::Aborted && final(self).flood() is None,
    {
        match send_step(outcome) {
            RetryStep::Proceed => {
                let f = self.flood.unwrap();
                if f.sent + 1 < f.total {
                    self.flood = Some(FloodState { dest: f.dest, total: f.total, sent: f.sent + 1 });
                    FloodProgress::Continue
                } else {
                    self.flood = None;
                    FloodProgress::Completed
                }
            },
            RetryStep::Retry => FloodProgress::Retry,
            RetryStep::Abort => {
                self.flood = None;
                FloodProgress::Aborted
            },
        }
    }
}

} // verus!
