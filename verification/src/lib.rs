//! A minimal UDP throughput probe: a client asks a server for a number of
//! fixed-size filler packets, and the server floods them back as fast as the
//! socket allows.
//!
//! The crate holds the verified core of the exchange: the wire codec for the
//! request, the retry discipline for socket operations under backpressure,
//! the FIFO handoff between the server's receive dispatcher and its send
//! loop, and the state machines that drive both roles. The unverified shell
//! around it performs the actual socket calls and feeds their outcomes to
//! these state machines.

pub mod addr;
pub mod client;
pub mod codec;
pub mod config;
pub mod policy;
pub mod queue;
pub mod server;
pub mod session;
