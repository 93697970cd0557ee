use nettest::addr::{Endpoint, IpAddress};
use nettest::policy::{recv_step, send_step, RecvOutcome, RetryStep, SendOutcome};

#[test]
fn send_outcomes_classify_exactly() {
    assert_eq!(send_step(&SendOutcome::Sent), RetryStep::Proceed);
    assert_eq!(send_step(&SendOutcome::WouldBlock), RetryStep::Retry);
    assert_eq!(send_step(&SendOutcome::Failed), RetryStep::Abort);
}

#[test]
fn recv_outcomes_classify_exactly() {
    let from = Endpoint { ip: IpAddress::V4(127, 0, 0, 1), port: 9999 };
    assert_eq!(recv_step(&RecvOutcome::Received(1100, from)), RetryStep::Proceed);
    assert_eq!(recv_step(&RecvOutcome::WouldBlock), RetryStep::Retry);
    assert_eq!(recv_step(&RecvOutcome::Failed), RetryStep::Abort);
}

#[test]
fn persistent_would_block_retries_until_it_clears() {
    // A simulated fault: the kernel reports backpressure 1000 times before
    // the send finally goes through. Every attempt must come back Retry,
    // never an error, and the cleared attempt proceeds.
    let mut attempts = 0u32;
    loop {
        let outcome = if attempts < 1000 { SendOutcome::WouldBlock } else { SendOutcome::Sent };
        match send_step(&outcome) {
            RetryStep::Retry => attempts += 1,
            RetryStep::Proceed => break,
            RetryStep::Abort => panic!("backpressure must never abort"),
        }
    }
    assert_eq!(attempts, 1000);
}
