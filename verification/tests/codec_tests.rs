use nettest::codec::{decode_request, encode_request, DecodeError};

#[test]
fn encode_is_four_little_endian_bytes() {
    assert_eq!(encode_request(0), vec![0, 0, 0, 0]);
    assert_eq!(encode_request(1), vec![1, 0, 0, 0]);
    assert_eq!(encode_request(0x0102_0304), vec![4, 3, 2, 1]);
    assert_eq!(encode_request(u32::MAX), vec![0xff, 0xff, 0xff, 0xff]);
}

#[test]
fn round_trip_returns_the_encoded_count() {
    for x in [0u32, 1, 3, 7878, 0x0102_0304, 0xdead_beef, u32::MAX] {
        assert_eq!(decode_request(&encode_request(x)), Ok(x));
    }
}

#[test]
fn short_datagrams_are_truncated_failures() {
    assert_eq!(decode_request(&[]), Err(DecodeError::Truncated));
    assert_eq!(decode_request(&[1]), Err(DecodeError::Truncated));
    assert_eq!(decode_request(&[1, 2]), Err(DecodeError::Truncated));
    assert_eq!(decode_request(&[1, 2, 3]), Err(DecodeError::Truncated));
}

#[test]
fn trailing_bytes_are_ignored() {
    let mut datagram = encode_request(3);
    datagram.extend_from_slice(&[0xab; 1096]);
    assert_eq!(decode_request(&datagram), Ok(3));
}
