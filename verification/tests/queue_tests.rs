use ws2812_pio::driver::CountDownTimer;
use ws2812_pio::driver::TxQueue;

#[test]
fn queue_records_pushes_in_order_and_drains() {
    let mut q = TxQueue::new();
    assert!(q.is_empty());
    assert!(!q.has_stalled());
    q.push_blocking(10);
    q.push_blocking(20);
    assert!(!q.is_empty());
    let drained = q.drain_to_stall();
    assert_eq!(drained, 2);
    assert!(q.is_empty());
    assert!(q.has_stalled());
    q.clear_stalled_flag();
    assert!(!q.has_stalled());
}

#[test]
fn countdown_accumulates_waited_time() {
    let mut t = CountDownTimer::new();
    assert_eq!(t.now(), 0);
    t.start_and_wait(60);
    assert_eq!(t.now(), 60);
    t.elapse(30);
    assert_eq!(t.now(), 90);
}
