use message_plugins::BoundedQueue;

#[test]
fn first_refused_send_is_the_one_past_capacity() {
    let mut q: BoundedQueue<u64> = BoundedQueue::new(4);
    assert_eq!(q.capacity(), 4);
    for v in 1..=4u64 {
        assert!(q.try_send(v).is_none());
    }
    assert_eq!(q.len(), 4);
    // The fifth send is the first that would have to wait.
    assert_eq!(q.try_send(5), Some(5));
    assert_eq!(q.len(), 4);
    // Room opens again as soon as the consumer takes one message out.
    assert_eq!(q.recv(), Some(1));
    assert!(q.try_send(5).is_none());
    assert_eq!(q.len(), 4);
}

#[test]
fn queue_is_fifo() {
    let mut q: BoundedQueue<&str> = BoundedQueue::new(3);
    assert!(q.try_send("a").is_none());
    assert!(q.try_send("b").is_none());
    assert!(q.try_send("c").is_none());
    assert_eq!(q.recv(), Some("a"));
    assert_eq!(q.recv(), Some("b"));
    assert_eq!(q.recv(), Some("c"));
    assert_eq!(q.recv(), None);
}

#[test]
fn zero_capacity_admits_nothing() {
    let mut q: BoundedQueue<u8> = BoundedQueue::new(0);
    assert_eq!(q.try_send(1), Some(1));
    assert_eq!(q.len(), 0);
}
