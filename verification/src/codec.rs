//! Wire codec for the request payload: a single `u32` packet count, encoded
//! little-endian as the first four bytes of one UDP datagram. Trailing bytes
//! of the datagram carry no meaning and are ignored when decoding.

use vstd::prelude::*;

verus! {

/// Number of bytes in an encoded request payload.
pub const REQUEST_BYTES: usize = 4;

/// Why a datagram failed to decode as a request.
#[derive(Clone, Copy, Debug, PartialEq, Eq, Structural)]
pub enum DecodeError {
    /// The datagram holds fewer than the four bytes of a request payload.
    Truncated,
}

/// The little-endian interpretation of the first four bytes as a packet count.
pub open spec fn request_value_of(b: Seq<u8>) -> u32
    recommends
        b.len() >= 4,
{
    (b[0] as u32) | (b[1] as u32) << 8 | (b[2] as u32) << 16 | (b[3] as u32) << 24
}

/// The four-byte little-endian encoding of a packet count.
pub open spec fn request_bytes_of(x: u32) -> Seq<u8> {
    seq![
        (x & 0xff) as u8,
        ((x >> 8) & 0xff) as u8,
        ((x >> 16) & 0xff) as u8,
        ((x >> 24) & 0xff) as u8,
    ]
}

/// Encodes a request for `packet_count` filler packets as the payload of one
/// datagram.
pub fn encode_request(packet_count: u32) -> (r: Vec<u8>)
    ensures
        r@ == request_bytes_of(packet_count),
        r@.len() == REQUEST_BYTES,
{
    let x = packet_count;
    proof {
        assert(x & 0xff < 256 && (x >> 8) & 0xff < 256 && (x >> 16) & 0xff < 256 && (x >> 24)
            & 0xff < 256) by (bit_vector);
    }
    let mut r: Vec<u8> = Vec::new();
    r.push((x & 0xff) as u8);
    r.push(((x >> 8) & 0xff) as u8);
    r.push(((x >> 16) & 0xff) as u8);
    r.push(((x >> 24) & 0xff) as u8);
    proof {
        assert(r@ =~= request_bytes_of(packet_count));
    }
    r
}

/// Decodes the payload of one inbound datagram. Fails with
/// [`DecodeError::Truncated`] exactly when fewer than four bytes arrived;
/// whatever follows the first four bytes is ignored. Never panics, however
/// malformed the datagram.
pub fn decode_request(bytes: &[u8]) -> (r: Result<u32, DecodeError>)
    ensures
        bytes@.len() >= 4 ==> r == Ok::<u32, DecodeError>(request_value_of(bytes@)),
        bytes@.len() < 4 ==> r == Err::<u32, DecodeError>(DecodeError::Truncated),
{
    if bytes.len() < 4 {
        Err(DecodeError::Truncated)
    } else {
        let b0 = bytes[0] as u32;
        let b1 = bytes[1] as u32;
        let b2 = bytes[2] as u32;
        let b3 = bytes[3] as u32;
        Ok(b0 | b1 << 8 | b2 << 16 | b3 << 24)
    }
}

/// Round trip: decoding an encoded request yields the packet count that was
/// encoded, for every representable `u32`.
pub proof fn lemma_request_round_trip(x: u32)
    ensures
        request_value_of(request_bytes_of(x)) == x,
{
    let b = request_bytes_of(x);
    assert(b[0] == (x & 0xff) as u8);
    assert(b[1] == ((x >> 8) & 0xff) as u8);
    assert(b[2] == ((x >> 16) & 0xff) as u8);
    assert(b[3] == ((x >> 24) & 0xff) as u8);
    assert((((x & 0xff) as u8) as u32) | ((((x >> 8) & 0xff) as u8) as u32) << 8 | ((((x >> 16)
        & 0xff) as u8) as u32) << 16 | ((((x >> 24) & 0xff) as u8) as u32) << 24 == x)
        by (bit_vector);
}

/// Decoding reads only the leading four bytes: any trailing bytes of the
/// datagram (filler, padding, garbage) leave the decoded count unchanged.
pub proof fn lemma_decode_ignores_trailing(b: Seq<u8>)
    requires
        b.len() >= 4,
    ensures
        request_value_of(b) == request_value_of(b.take(4)),
{
}

} // verus!
