//! Protocol-wide tunables shared by client and server. They are carried in an
//! explicit configuration value handed to each role at construction, so that
//! independent instances (for example in tests) can use different settings.

use crate::policy::IoMode;
use vstd::prelude::*;

verus! {

/// Default UDP service port.
pub const DEFAULT_PORT: u16 = 7878;

/// Default size in bytes of one filler packet, and of the scratch buffer a
/// receiving unit reuses for inbound datagrams.
pub const DEFAULT_PACKET_BYTES: usize = 1100;

/// The tunables both roles agree on: the service port, the filler packet
/// size, and the socket I/O mode.
#[derive(Clone, Copy, Debug, PartialEq, Eq, Structural)]
pub struct ProtocolConfig {
    pub port: u16,
    pub packet_bytes: usize,
    pub io_mode: IoMode,
}

impl ProtocolConfig {
    /// A configuration is usable when a filler packet (and hence the receive
    /// scratch buffer) is at least as large as an encoded request, so a
    /// request datagram always fits in the buffer.
    pub open spec fn wf(self) -> bool {
        self.packet_bytes >= crate::codec::REQUEST_BYTES
    }

    /// The standard deployment: default port, default packet size,
    /// non-blocking sockets with retry on backpressure.
    pub fn standard() -> (c: ProtocolConfig)
        ensures
            c.wf(),
            c.port == DEFAULT_PORT,
            c.packet_bytes == DEFAULT_PACKET_BYTES,
            c.io_mode == IoMode::NonBlockingRetry,
    {
        ProtocolConfig { port: DEFAULT_PORT, packet_bytes: DEFAULT_PACKET_BYTES, io_mode: IoMode::NonBlockingRetry }
    }

    /// A configuration with the given tunables.
    pub fn new(port: u16, packet_bytes: usize, io_mode: IoMode) -> (c: ProtocolConfig)
        requires
            packet_bytes >= crate::codec::REQUEST_BYTES,
        ensures
            c.wf(),
            c == (ProtocolConfig { port, packet_bytes, io_mode }),
    {
        ProtocolConfig { port, packet_bytes, io_mode }
    }

    /// Whether the sockets should be put in non-blocking mode.
    pub fn nonblocking(&self) -> (r: bool)
        ensures
            r == (self.io_mode is NonBlockingRetry),
    {
        match self.io_mode {
            IoMode::Blocking => false,
            IoMode::NonBlockingRetry => true,
        }
    }
}

/// A zero-filled buffer of the given length: used for the filler packets the
/// server sends (their content is unspecified, so it is zeroed) and for the
/// scratch buffer a receiving unit reuses for inbound datagrams (zeroed
/// rather than uninitialized; only the returned byte count of a receive is
/// ever treated as valid data).
pub fn zeroed_buffer(len: usize) -> (v: Vec<u8>)
    ensures
        v@.len() == len,
        forall|i: int| 0 <= i < len ==> v@[i] == 0u8,
{
    let mut v: Vec<u8> = Vec::new();
    let mut i: usize = 0;
    while i < len
        invariant
            i <= len,
            v@.len() == i,
            forall|j: int| 0 <= j < i ==> v@[j] == 0u8,
        decreases len - i,
    {
        v.push(0u8);
        i = i + 1;
    }
    v
}

} // verus!
