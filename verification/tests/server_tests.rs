use nettest::addr::{Endpoint, IpAddress};
use nettest::codec::encode_request;
use nettest::config::ProtocolConfig;
use nettest::policy::SendOutcome;
use nettest::server::{dispatch_datagram, FloodProgress, SendWork, ServerCore};
use nettest::session::simulate_service;

fn endpoint(port: u16) -> Endpoint {
    Endpoint { ip: IpAddress::V4(127, 0, 0, 1), port }
}

#[test]
fn dispatcher_decodes_well_formed_requests() {
    let source = endpoint(4242);
    let decision = dispatch_datagram(&encode_request(9), source);
    let pending = decision.expect("a four-byte datagram is a request");
    assert_eq!(pending.packet_count, 9);
    assert_eq!(pending.source, source);
}

#[test]
fn dispatcher_drops_short_datagrams() {
    assert_eq!(dispatch_datagram(&[7, 7], endpoint(4242)), None);
    assert_eq!(dispatch_datagram(&[], endpoint(4242)), None);
}

#[test]
fn requests_are_accepted_mid_flood() {
    // A large flood is in progress; a new request arriving meanwhile is
    // still accepted and enqueued — the dispatcher is never blocked by the
    // send loop.
    let mut server = ServerCore::new(ProtocolConfig::standard());
    assert!(server.on_datagram(&encode_request(1_000_000), endpoint(5001)));
    assert!(server.begin_next());
    assert!(server.flood_active());

    // Part of the flood goes out...
    for _ in 0..10 {
        assert_eq!(server.on_send_outcome(&SendOutcome::Sent), FloodProgress::Continue);
    }
    assert!(server.flood_active());

    // ...and in the middle of it a second client's request arrives.
    assert!(server.on_datagram(&encode_request(2), endpoint(5002)));
    assert_eq!(server.pending_len(), 1);
    assert!(server.flood_active());
    assert_eq!(server.send_work(), SendWork::Transmit(endpoint(5001)));
}

#[test]
fn would_block_retries_and_error_aborts_one_flood_only() {
    let mut server = ServerCore::new(ProtocolConfig::standard());
    assert!(server.on_datagram(&encode_request(100), endpoint(6001)));
    assert!(server.on_datagram(&encode_request(1), endpoint(6002)));
    assert!(server.begin_next());

    // Persistent backpressure: every attempt is retried, the flood and the
    // queue stand exactly where they were.
    for _ in 0..1000 {
        assert_eq!(server.on_send_outcome(&SendOutcome::WouldBlock), FloodProgress::Retry);
    }
    assert!(server.flood_active());
    assert_eq!(server.pending_len(), 1);

    // A genuine error abandons the rest of this flood only; the next
    // request is served in full.
    assert_eq!(server.on_send_outcome(&SendOutcome::Failed), FloodProgress::Aborted);
    assert!(!server.flood_active());
    assert!(server.begin_next());
    assert_eq!(server.send_work(), SendWork::Transmit(endpoint(6002)));
    assert_eq!(server.on_send_outcome(&SendOutcome::Sent), FloodProgress::Completed);
    assert!(!server.flood_active());
    assert_eq!(server.pending_len(), 0);
}

#[test]
fn floods_complete_in_request_order() {
    // Requests decoded in the order A, B are served in that order: every one
    // of A's packets is transmitted before the first of B's.
    let mut server = ServerCore::new(ProtocolConfig::standard());
    let a = endpoint(7001);
    let b = endpoint(7002);
    assert!(server.on_datagram(&encode_request(2), a));
    assert!(server.on_datagram(&encode_request(3), b));

    let transcript = simulate_service(&mut server);
    assert_eq!(transcript, vec![a, a, b, b, b]);
    assert_eq!(server.pending_len(), 0);
}

#[test]
fn short_datagram_is_dropped_and_server_stays_responsive() {
    // A two-byte datagram is dropped without effect; a well-formed request
    // arriving afterwards is accepted and served in full.
    let mut server = ServerCore::new(ProtocolConfig::standard());
    assert!(!server.on_datagram(&[0xff, 0xff], endpoint(8001)));
    assert_eq!(server.pending_len(), 0);

    let source = endpoint(8002);
    assert!(server.on_datagram(&encode_request(4), source));
    let transcript = simulate_service(&mut server);
    assert_eq!(transcript, vec![source; 4]);
}

#[test]
fn zero_count_requests_are_served_with_no_packets() {
    let mut server = ServerCore::new(ProtocolConfig::standard());
    assert!(server.on_datagram(&encode_request(0), endpoint(9001)));
    assert!(server.begin_next());
    assert!(!server.flood_active());
    assert_eq!(server.pending_len(), 0);
}
