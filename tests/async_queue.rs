use atomic_queue::AsyncQueue;

#[test]
fn simple_test() {
    let mut q = AsyncQueue::new();
    q.push(4);
    q.push(3);
    assert_eq!(q.pop(), Some(4));
    assert_eq!(q.pop(), Some(3));
    assert_eq!(q.pop(), None);
    q.push(5);
    assert_eq!(q.pop(), Some(5));
}

#[test]
fn fresh_queue_stays_empty() {
    let mut q: AsyncQueue<u32> = AsyncQueue::new();
    for _ in 0..5 {
        assert_eq!(q.pop(), None);
    }
    q.push(7);
    assert_eq!(q.pop(), Some(7));
    assert_eq!(q.pop(), None);
}

#[test]
fn single_producer_order_kept() {
    let mut q = AsyncQueue::new();
    for i in 0..100u64 {
        q.push(i);
    }
    for i in 0..100u64 {
        assert_eq!(q.pop(), Some(i));
    }
    assert_eq!(q.pop(), None);
}

#[test]
fn mixed_pushes_and_pops_lose_nothing() {
    let mut q = AsyncQueue::new();
    let mut pushed: Vec<u64> = Vec::new();
    let mut popped: Vec<u64> = Vec::new();
    let mut x: u64 = 12345;
    for i in 0..2000u64 {
        x = x.wrapping_mul(6364136223846793005).wrapping_add(1442695040888963407);
        if (x >> 33) % 3 != 0 {
            q.push(i);
            pushed.push(i);
        } else if let Some(v) = q.pop() {
            popped.push(v);
        }
    }
    while let Some(v) = q.pop() {
        popped.push(v);
    }
    assert_eq!(popped, pushed);
}

#[test]
fn nodes_are_reused_across_cycles() {
    let mut q = AsyncQueue::new();
    for round in 0..50u32 {
        q.push(round);
        q.push(round + 1000);
        assert_eq!(q.pop(), Some(round));
        assert_eq!(q.pop(), Some(round + 1000));
        assert_eq!(q.pop(), None);
    }
}

#[test]
fn owned_payloads_move_through() {
    let mut q = AsyncQueue::new();
    q.push(String::from("a"));
    q.push(String::from("bc"));
    assert_eq!(q.pop(), Some(String::from("a")));
    q.push(String::from("d"));
    assert_eq!(q.pop(), Some(String::from("bc")));
    assert_eq!(q.pop(), Some(String::from("d")));
    assert_eq!(q.pop(), None);
}
