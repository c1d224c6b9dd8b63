use chat_gateway::queue::IdentifyQueue;

#[test]
fn one_admission_per_window() {
    let mut q = IdentifyQueue::new(5000);
    q.request(0);
    q.request(1);
    q.request(2);

    // the first admission is immediate and FIFO
    assert_eq!(q.tick(1_000), Some(0));
    // within the window nothing more is admitted
    assert_eq!(q.tick(1_001), None);
    assert_eq!(q.tick(5_999), None);
    // a full window later the next waiter leaves
    assert_eq!(q.tick(6_000), Some(1));
    assert_eq!(q.tick(10_999), None);
    assert_eq!(q.tick(11_000), Some(2));
    // an empty queue admits nobody
    assert_eq!(q.tick(99_999), None);
}

#[test]
fn cancel_hands_the_slot_on() {
    let mut q = IdentifyQueue::new_default();
    q.request(4);
    q.request(5);
    q.cancel(4);
    assert_eq!(q.tick(0), Some(5));
}

#[test]
fn default_window_is_five_seconds() {
    let q = IdentifyQueue::new_default();
    assert_eq!(q.interval_ms, 5000);
}
