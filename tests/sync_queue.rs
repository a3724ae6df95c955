use atomic_queue::SyncQueue;

#[test]
fn tests_simple_test() {
    let mut q = SyncQueue::new();
    q.push(4);
    q.push(3);
    assert_eq!(q.pop(()), Some(4));
    assert_eq!(q.pop(()), Some(3));
    q.push(5);
    assert_eq!(q.pop(()), Some(5));
}

#[test]
fn single_push_wakes_pending_pop() {
    let mut q: SyncQueue<u32, &str> = SyncQueue::new();
    // The popper registers and finds nothing: it would park.
    assert_eq!(q.pop("popper"), None);
    // One push wakes exactly that popper.
    assert_eq!(q.push(42), Some("popper"));
    // Its next round gets the value.
    assert_eq!(q.pop("popper"), Some(42));
}

#[test]
fn push_without_waiters_wakes_nobody() {
    let mut q: SyncQueue<u32, u8> = SyncQueue::new();
    assert_eq!(q.push(1), None);
    assert_eq!(q.push(2), None);
}

#[test]
fn waiters_are_woken_in_registration_order() {
    let mut q: SyncQueue<u32, u8> = SyncQueue::new();
    assert_eq!(q.pop(1), None);
    assert_eq!(q.pop(2), None);
    assert_eq!(q.push(10), Some(1));
    assert_eq!(q.push(20), Some(2));
    assert_eq!(q.push(30), None);
    assert_eq!(q.pop(3), Some(10));
}
