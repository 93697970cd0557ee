//! A reference execution of one whole exchange, with the network replaced by
//! a lossless link and a responsive peer: every datagram sent is delivered,
//! and no send ever fails. Driving the two verified state machines against
//! each other proves the throughput guarantee of the protocol — a client that
//! asks a responsive server for `packet_count` packets receives exactly
//! `packet_count` reply datagrams, each of the configured filler size — and
//! gives tests a faithful exchange to run without touching a socket.

use crate::addr::Endpoint;
use crate::client::{ClientCore, ReceiveReport};
use crate::codec;
use crate::config::{zeroed_buffer, ProtocolConfig};
use crate::policy::SendOutcome;
use crate::queue::PendingRequest;
use crate::server::{SendWork, ServerCore};
use vstd::prelude::*;

verus! {

/// The destinations of every filler packet a responsive server sends while
/// draining these pending requests: each request's packets in full, requests
/// in queue order. That the transcript has this shape is the FIFO service
/// guarantee — all of the first request's packets go out before any of the
/// second's.
pub open spec fn flood_transcript(reqs: Seq<PendingRequest>) -> Seq<Endpoint>
    decreases reqs.len(),
{
    if reqs.len() == 0 {
        Seq::empty()
    } else {
        Seq::new(reqs[0].packet_count as nat, |i: int| reqs[0].source) + flood_transcript(
            reqs.drop_first(),
        )
    }
}

/// Drains the server's pending requests over a lossless link where every
/// send completes, recording the destination of each filler packet in the
/// order transmitted. The transcript is exactly [`flood_transcript`] of the
/// pending requests: requests are served to completion, one after the other,
/// in the order they were enqueued.
pub fn simulate_service(server: &mut ServerCore) -> (transcript: Vec<Endpoint>)
    requires
        old(server).wf(),
        old(server).flood() is None,
    ensures
        final(server).wf(),
        final(server).config() == old(server).config(),
        final(server).pending().len() == 0,
        final(server).flood() is None,
        transcript@ == flood_transcript(old(server).pending()),
{
    let mut transcript: Vec<Endpoint> = Vec::new();
    while server.pending_len() > 0
        invariant
            server.wf(),
            server.flood() is None,
            server.config() == old(server).config(),
            transcript@ + flood_transcript(server.pending()) == flood_transcript(
                old(server).pending(),
            ),
        decreases server.pending().len(),
    {
        let ghost prev_pending = server.pending();
        let ghost pre = transcript@;
        let started = server.begin_next();
        proof {
            assert(started);
        }
        while server.flood_active()
            invariant
                server.wf(),
                server.config() == old(server).config(),
                prev_pending.len() > 0,
                server.pending() == prev_pending.drop_first(),
                server.flood() matches Some(f) ==> f.dest == prev_pending[0].source && f.total
                    == prev_pending[0].packet_count && transcript@ == pre + Seq::new(
                    f.sent as nat,
                    |i: int| prev_pending[0].source,
                ),
                server.flood() is None ==> transcript@ == pre + Seq::new(
                    prev_pending[0].packet_count as nat,
                    |i: int| prev_pending[0].source,
                ),
            decreases (match server.flood() {
                Some(f) => f.total - f.sent,
                None => 0int,
            }),
        {
            let ghost sent_before = server.flood()->Some_0.sent;
            match server.send_work() {
                SendWork::Transmit(dest) => {
                    transcript.push(dest);
                    server.on_send_outcome(&SendOutcome::Sent);
                    proof {
                        assert(transcript@ =~= pre + Seq::new(
                            (sent_before + 1) as nat,
                            |i: int| prev_pending[0].source,
                        ));
                    }
                },
                SendWork::AwaitRequest => {
                    proof {
                        assert(false);
                    }
                },
            }
        }
        proof {
            if prev_pending[0].packet_count == 0 {
                assert(transcript@ =~= pre + Seq::new(
                    prev_pending[0].packet_count as nat,
                    |i: int| prev_pending[0].source,
                ));
            }
            assert(flood_transcript(prev_pending) == Seq::new(
                prev_pending[0].packet_count as nat,
                |i: int| prev_pending[0].source,
            ) + flood_transcript(prev_pending.drop_first()));
            assert(transcript@ + flood_transcript(server.pending()) =~= pre + flood_transcript(
                prev_pending,
            ));
        }
    }
    transcript
}

/// Plays one full exchange over a lossless link: the client at `client_addr`
/// asks the server at `server_addr` for `packet_count` filler packets, the
/// server decodes the request and floods them back, and every one arrives.
/// The reports that come back are exactly one per requested packet, indexed
/// in arrival order from zero, each of the configured filler size with a
/// zeroed payload.
pub fn simulate_exchange(
    packet_count: u32,
    config: ProtocolConfig,
    server_addr: Endpoint,
    client_addr: Endpoint,
) -> (reports: Vec<ReceiveReport>)
    requires
        config.wf(),
    ensures
        reports@.len() == packet_count as int,
        forall|i: int|
            0 <= i < reports@.len() ==> reports@[i] == (ReceiveReport {
                index: i as u32,
                byte_count: config.packet_bytes,
                first_byte: 0u8,
            }),
{
    let mut server = ServerCore::new(config);
    let mut client = ClientCore::new(config, server_addr, packet_count);

    // The request goes out once, fire and forget, and the lossless link
    // delivers it to the server's receive dispatcher intact.
    let payload = client.request_payload();
    let accepted = server.on_datagram(payload.as_slice(), client_addr);
    proof {
        codec::lemma_request_round_trip(packet_count);
        // A four-byte payload is always accepted, and decodes back to the
        // count the client encoded.
        assert(accepted);
    }
    client.on_request_sent();

    // The send loop takes the one pending request and floods it back; the
    // filler packets are zero-filled and the link delivers each in turn.
    let started = server.begin_next();
    proof {
        assert(started);
    }
    let filler = zeroed_buffer(config.packet_bytes);
    let first_byte = filler[0];
    let mut reports: Vec<ReceiveReport> = Vec::new();

    while server.flood_active()
        invariant
            server.wf(),
            client.wf(),
            server.config() == config,
            client.config() == config,
            client.requested() == packet_count,
            filler@.len() == config.packet_bytes,
            first_byte == 0u8,
            reports@.len() == client.received() as int,
            forall|i: int|
                0 <= i < reports@.len() ==> reports@[i] == (ReceiveReport {
                    index: i as u32,
                    byte_count: config.packet_bytes,
                    first_byte: 0u8,
                }),
            server.flood() matches Some(f) ==> f.dest == client_addr && f.total == packet_count
                && f.sent == client.received() && client.phase() is Receiving,
            server.flood() is None ==> client.received() == packet_count,
        decreases (match server.flood() {
            Some(f) => f.total - f.sent,
            None => 0int,
        }),
    {
        let rep = client.on_reply(filler.len(), first_byte);
        reports.push(rep);
        server.on_send_outcome(&SendOutcome::Sent);
    }

    reports
}

} // verus!
