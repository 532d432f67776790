use loopers::control_channel::CommandQueue;

#[test]
fn values_within_capacity_arrive_exactly_once_in_order() {
    let mut q: CommandQueue<u64> = CommandQueue::new(100);
    for v in 0..100u64 {
        assert!(q.try_send(v).is_ok());
    }
    assert_eq!(q.len(), 100);
    for v in 0..100u64 {
        assert_eq!(q.recv(), Some(v));
    }
    assert_eq!(q.recv(), None);
}

#[test]
fn send_beyond_capacity_is_refused_not_dropped() {
    let mut q: CommandQueue<u64> = CommandQueue::new(5);
    for v in 0..5u64 {
        assert!(q.try_send(v).is_ok());
    }
    // The sixth send does not complete: the value comes back and nothing
    // already queued is disturbed.
    assert_eq!(q.try_send(5), Err(5));
    assert_eq!(q.len(), 5);
    // Once a receive frees a slot, the same send completes.
    assert_eq!(q.recv(), Some(0));
    assert!(q.try_send(5).is_ok());
    for v in 1..6u64 {
        assert_eq!(q.recv(), Some(v));
    }
}

#[test]
fn zero_capacity_refuses_every_send() {
    let mut q: CommandQueue<u64> = CommandQueue::new(0);
    assert_eq!(q.try_send(9), Err(9));
    assert_eq!(q.len(), 0);
}
