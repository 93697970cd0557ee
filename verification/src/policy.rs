//! The socket I/O policy: how one send or receive attempt's outcome is
//! classified, and what a retrying caller does next. The discipline is the
//! same for both roles: a completed operation proceeds, transient
//! backpressure ("would block") is retried and never surfaced as an error,
//! and a genuine I/O error is handed to the caller to abandon the operation.

use crate::addr::Endpoint;
use vstd::prelude::*;

verus! {

/// Whether socket operations block the calling thread until they complete,
/// or poll non-blockingly and retry on backpressure. Configurable per
/// deployment; the decision logic below is agnostic to the mode, since a
/// blocking socket simply never reports a would-block outcome.
#[derive(Clone, Copy, Debug, PartialEq, Eq, Structural)]
pub enum IoMode {
    Blocking,
    NonBlockingRetry,
}

/// The outcome the operating system reported for one send attempt.
#[derive(Clone, Copy, Debug, PartialEq, Eq, Structural)]
pub enum SendOutcome {
    /// The datagram was handed to the kernel.
    Sent,
    /// The send buffer is full; the condition is transient.
    WouldBlock,
    /// A genuine I/O error.
    Failed,
}

/// The outcome the operating system reported for one receive attempt.
#[derive(Clone, Copy, Debug, PartialEq, Eq, Structural)]
pub enum RecvOutcome {
    /// A datagram of so many bytes arrived from this source.
    Received(usize, Endpoint),
    /// No datagram is ready yet; the condition is transient.
    WouldBlock,
    /// A genuine I/O error.
    Failed,
}

/// What a retrying caller does after one attempt.
#[derive(Clone, Copy, Debug, PartialEq, Eq, Structural)]
pub enum RetryStep {
    /// The operation completed; move on.
    Proceed,
    /// Transient backpressure; wait briefly and attempt again.
    Retry,
    /// A genuine error; abandon the operation.
    Abort,
}

/// Classifies one send attempt. A would-block outcome always yields
/// [`RetryStep::Retry`], never an error: under persistent backpressure the
/// caller retries indefinitely.
pub fn send_step(outcome: &SendOutcome) -> (d: RetryStep)
    ensures
        d == (match outcome {
            SendOutcome::Sent => RetryStep::Proceed,
            SendOutcome::WouldBlock => RetryStep::Retry,
            SendOutcome::Failed => RetryStep::Abort,
        }),
{
    match outcome {
        SendOutcome::Sent => RetryStep::Proceed,
        SendOutcome::WouldBlock => RetryStep::Retry,
        SendOutcome::Failed => RetryStep::Abort,
    }
}

/// Classifies one receive attempt. As with sends, a would-block outcome is
/// always retried and never surfaced as an error.
pub fn recv_step(outcome: &RecvOutcome) -> (d: RetryStep)
    ensures
        d == (match outcome {
            RecvOutcome::Received(..) => RetryStep::Proceed,
            RecvOutcome::WouldBlock => RetryStep::Retry,
            RecvOutcome::Failed => RetryStep::Abort,
        }),
{
    match outcome {
        RecvOutcome::Received(..) => RetryStep::Proceed,
        RecvOutcome::WouldBlock => RetryStep::Retry,
        RecvOutcome::Failed => RetryStep::Abort,
    }
}

} // verus!
