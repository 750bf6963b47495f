use hilfmir::{receive_webhook, Next, UpdateQueue};

#[test]
fn events_come_out_in_order() {
    let mut q = UpdateQueue::new();
    assert!(q.push(1));
    assert_eq!(q.push_batch(vec![2, 3, 4]), 3);
    assert!(q.push(5));
    for expected in 1..=5 {
        assert!(matches!(q.next(), Next::Ready(x) if x == expected));
    }
    assert!(matches!(q.next(), Next::Pending));
}

#[test]
fn shutdown_drains_then_ends() {
    let mut q = UpdateQueue::new();
    q.push("a");
    q.push("b");
    assert!(q.is_open());
    q.shutdown();
    assert!(!q.is_open());
    assert!(!q.push("c"));
    assert_eq!(q.push_batch(vec!["d"]), 0);
    assert!(matches!(q.next(), Next::Ready("a")));
    assert!(matches!(q.next(), Next::Ready("b")));
    assert!(matches!(q.next(), Next::Closed));
    assert!(matches!(q.next(), Next::Closed));
}

#[test]
fn malformed_webhook_body_is_acknowledged_and_dropped() {
    let mut q: UpdateQueue<u32> = UpdateQueue::new();
    q.push(7);
    let receipt = receive_webhook(&mut q, None);
    assert_eq!(receipt.status, 200);
    assert!(receipt.malformed);
    assert!(!receipt.forwarded);
    assert!(matches!(q.next(), Next::Ready(7)));
    assert!(matches!(q.next(), Next::Pending));
}

#[test]
fn decoded_webhook_body_is_queued() {
    let mut q = UpdateQueue::new();
    let receipt = receive_webhook(&mut q, Some(9));
    assert_eq!(receipt.status, 200);
    assert!(receipt.forwarded);
    assert!(!receipt.malformed);
    assert!(matches!(q.next(), Next::Ready(9)));
}

#[test]
fn webhook_after_shutdown_is_acknowledged_but_not_queued() {
    let mut q = UpdateQueue::new();
    q.shutdown();
    let receipt = receive_webhook(&mut q, Some(1));
    assert_eq!(receipt.status, 200);
    assert!(!receipt.forwarded);
    assert!(matches!(q.next(), Next::Closed));
}
