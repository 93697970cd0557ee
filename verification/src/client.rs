//! The client core: one request, then counting replies. The client encodes
//! the packet count it wants, sends it once to the server (fire and forget),
//! and then loops receiving exactly that many reply datagrams, reporting each
//! as it arrives. The unverified shell owns the socket; it sends the payload
//! this state machine hands it and feeds back each receive attempt's outcome.

use crate::addr::Endpoint;
use crate::codec;
use crate::config::ProtocolConfig;
use vstd::prelude::*;

verus! {

/// One line of the client's progress: which reply this was (counting from
/// zero), how many bytes arrived, and the first payload byte — diagnostics
/// only, the content of a filler packet carries no meaning.
#[derive(Clone, Copy, Debug, PartialEq, Eq, Structural)]
pub struct ReceiveReport {
    pub index: u32,
    pub byte_count: usize,
    pub first_byte: u8,
}

/// Where the client stands in its one exchange.
#[derive(Clone, Copy, Debug, PartialEq, Eq, Structural)]
pub enum ClientPhase {
    /// The request has not gone out yet.
    Requesting,
    /// The request is out; replies are still owed.
    Receiving,
    /// Every requested reply has arrived.
    Done,
    /// A genuine I/O error ended the receive loop early (reported, not hung).
    Aborted,
}

/// The client's core state: the server it talks to, how many packets it
/// asked for, and how many have arrived.
pub struct ClientCore {
    config: ProtocolConfig,
    server: Endpoint,
    requested: u32,
    received: u32,
    phase: ClientPhase,
}

impl ClientCore {
    /// The configuration this client was constructed with.
    pub closed spec fn config(self) -> ProtocolConfig {
        self.config
    }

    /// The server endpoint the request goes to.
    pub closed spec fn server(self) -> Endpoint {
        self.server
    }

    /// How many filler packets the client asked for.
    pub closed spec fn requested(self) -> u32 {
        self.requested
    }

    /// How many reply datagrams have arrived so far.
    pub closed spec fn received(self) -> u32 {
        self.received
    }

    /// Where the client stands.
    pub closed spec fn phase(self) -> ClientPhase {
        self.phase
    }

    /// No reply is counted before the request goes out; never more replies
    /// than requested; done exactly when all of them have arrived.
    pub open spec fn wf(self) -> bool {
        &&& self.received() <= self.requested()
        &&& (self.phase() is Requesting ==> self.received() == 0)
        &&& (self.phase() is Receiving ==> self.received() < self.requested())
        &&& (self.phase() is Done ==> self.received() == self.requested())
    }

    /// A client about to ask `server` for `packet_count` filler packets.
    pub fn new(config: ProtocolConfig, server: Endpoint, packet_count: u32) -> (c: ClientCore)
        ensures
            c.wf(),
            c.config() == config,
            c.server() == server,
            c.requested() == packet_count,
            c.received() == 0,
            c.phase() is Requesting,
    {
        ClientCore { config, server, requested: packet_count, received: 0, phase: ClientPhase::Requesting }
    }

    /// The encoded request payload to send to the server, exactly the wire
    /// encoding of the requested packet count.
    pub fn request_payload(&self) -> (v: Vec<u8>)
        ensures
            v@ == codec::request_bytes_of(self.requested()),
            v@.len() == codec::REQUEST_BYTES,
    {
        codec::encode_request(self.requested)
    }

    /// The request has gone out. With a zero packet count the client is done
    /// on the spot and performs no receive attempt at all; otherwise it moves
    /// on to receiving.
    pub fn on_request_sent(&mut self)
        requires
            old(self).wf(),
            old(self).phase() is Requesting,
        ensures
            final(self).wf(),
            final(self).config() == old(self).config(),
            final(self).server() == old(self).server(),
            final(self).requested() == old(self).requested(),
            final(self).received() == 0,
            final(self).phase() == (if old(self).requested() == 0 {
                ClientPhase::Done
            } else {
                ClientPhase::Receiving
            }),
    {
        if self.requested == 0 {
            self.phase = ClientPhase::Done;
        } else {
            self.phase = ClientPhase::Receiving;
        }
    }

    /// Whether the client still owes itself receive attempts: this drives the
    /// shell's receive loop, and is false from the start when zero packets
    /// were requested.
    pub fn awaiting(&self) -> (b: bool)
        ensures
            b == (self.phase() is Receiving),
    {
        match self.phase {
            ClientPhase::Receiving => true,
            _ => false,
        }
    }

    /// Whether every requested reply has arrived.
    pub fn is_done(&self) -> (b: bool)
        ensures
            b == (self.phase() is Done),
    {
        match self.phase {
            ClientPhase::Done => true,
            _ => false,
        }
    }

    /// How many replies have arrived so far.
    pub fn received_count(&self) -> (n: u32)
        ensures
            n == self.received(),
    {
        self.received
    }

    /// Account one reply datagram and report it: the report carries the index
    /// of this reply (in order of arrival, counting from zero), its byte
    /// count, and its first byte. The arrival that completes the requested
    /// count finishes the exchange.
    pub fn on_reply(&mut self, byte_count: usize, first_byte: u8) -> (rep: ReceiveReport)
        requires
            old(self).wf(),
            old(self).phase() is Receiving,
        ensures
            final(self).wf(),
            final(self).config() == old(self).config(),
            final(self).server() == old(self).server(),
            final(self).requested() == old(self).requested(),
            final(self).received() == old(self).received() + 1,
            rep == (ReceiveReport { index: old(self).received(), byte_count, first_byte }),
            final(self).phase() == (if old(self).received() + 1 == old(self).requested() {
                ClientPhase::Done
            } else {
                ClientPhase::Receiving
            }),
    {
        let rep = ReceiveReport { index: self.received, byte_count, first_byte };
        self.received = self.received + 1;
        if self.received == self.requested {
            self.phase = ClientPhase::Done;
        }
        rep
    }

    /// A genuine I/O error on the receive path: the client abandons the
    /// receive loop rather than hanging, and reports how far it got.
    pub fn on_recv_error(&mut self)
        requires
            old(self).wf(),
            old(self).phase() is Receiving,
        ensures
            final(self).wf(),
            final(self).config() == old(self).config(),
            final(self).server() == old(self).server(),
            final(self).requested() == old(self).requested(),
            final(self).received() == old(self).received(),
            final(self).phase() is Aborted,
    {
        self.phase = ClientPhase::Aborted;
    }
}

} // verus!
