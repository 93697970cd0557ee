use nettest::addr::{Endpoint, IpAddress};
use nettest::queue::{HandoffQueue, PendingRequest};

fn req(count: u32, port: u16) -> PendingRequest {
    PendingRequest {
        packet_count: count,
        source: Endpoint { ip: IpAddress::V4(127, 0, 0, 1), port },
    }
}

#[test]
fn dequeue_on_empty_is_none() {
    let mut q = HandoffQueue::new();
    assert!(q.is_empty());
    assert_eq!(q.dequeue(), None);
    assert_eq!(q.len(), 0);
}

#[test]
fn requests_come_out_in_enqueue_order() {
    let mut q = HandoffQueue::new();
    let r1 = req(5, 1001);
    let r2 = req(1, 1002);
    let r3 = req(0, 1003);
    q.enqueue(r1);
    q.enqueue(r2);
    q.enqueue(r3);
    assert_eq!(q.len(), 3);
    assert_eq!(q.dequeue(), Some(r1));
    assert_eq!(q.dequeue(), Some(r2));
    assert_eq!(q.dequeue(), Some(r3));
    assert_eq!(q.dequeue(), None);
}
