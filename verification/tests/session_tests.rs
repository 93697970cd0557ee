use nettest::addr::{Endpoint, IpAddress};
use nettest::config::{zeroed_buffer, ProtocolConfig};
use nettest::policy::IoMode;
use nettest::session::simulate_exchange;

fn server_endpoint() -> Endpoint {
    Endpoint { ip: IpAddress::V4(127, 0, 0, 1), port: 7878 }
}

fn client_endpoint() -> Endpoint {
    Endpoint { ip: IpAddress::V4(127, 0, 0, 1), port: 54321 }
}

#[test]
fn standard_config_matches_the_protocol_defaults() {
    let config = ProtocolConfig::standard();
    assert_eq!(config.port, 7878);
    assert_eq!(config.packet_bytes, 1100);
    assert_eq!(config.io_mode, IoMode::NonBlockingRetry);
}

#[test]
fn zeroed_buffers_hold_only_zeros() {
    let buffer = zeroed_buffer(1100);
    assert_eq!(buffer.len(), 1100);
    assert!(buffer.iter().all(|b| *b == 0));
}

#[test]
fn requesting_three_packets_yields_three_full_reports() {
    // The loopback scenario: three packets requested, three datagrams of
    // 1100 bytes received, labelled 0, 1, 2 in arrival order.
    let reports = simulate_exchange(
        3,
        ProtocolConfig::standard(),
        server_endpoint(),
        client_endpoint(),
    );
    assert_eq!(reports.len(), 3);
    for (i, report) in reports.iter().enumerate() {
        assert_eq!(report.index, i as u32);
        assert_eq!(report.byte_count, 1100);
        assert_eq!(report.first_byte, 0);
    }
}

#[test]
fn requesting_zero_packets_yields_no_reports() {
    let reports = simulate_exchange(
        0,
        ProtocolConfig::standard(),
        server_endpoint(),
        client_endpoint(),
    );
    assert!(reports.is_empty());
}

#[test]
fn every_requested_count_is_honoured_exactly() {
    for n in [1u32, 2, 10, 257] {
        let reports = simulate_exchange(
            n,
            ProtocolConfig::standard(),
            server_endpoint(),
            client_endpoint(),
        );
        assert_eq!(reports.len(), n as usize);
        assert!(reports.iter().all(|r| r.byte_count == 1100));
    }
}

#[test]
fn a_small_packet_size_configuration_is_respected() {
    let config = ProtocolConfig::new(9000, 64, IoMode::Blocking);
    let reports = simulate_exchange(2, config, server_endpoint(), client_endpoint());
    assert_eq!(reports.len(), 2);
    assert!(reports.iter().all(|r| r.byte_count == 64));
}
