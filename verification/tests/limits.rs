use porter::telegram::ratelimit::RateLimiter;
use porter::telegram::workqueue::KeyedFifo;

#[test]
fn nineteen_sends_fit_one_window() {
    let mut limiter = RateLimiter::new();
    for i in 0..19 {
        assert!(limiter.try_acquire(-100, i), "grant {} should pass", i);
    }
    // The twentieth send in the same window must wait.
    assert!(!limiter.try_acquire(-100, 20));
    // Another chat is unaffected.
    assert!(limiter.try_acquire(-200, 21));
}

#[test]
fn the_window_slides() {
    let mut limiter = RateLimiter::new();
    for i in 0..19 {
        assert!(limiter.try_acquire(-100, i));
    }
    assert!(!limiter.try_acquire(-100, 30000));
    // 60 seconds after the first grant the oldest ones have left the
    // window.
    assert!(limiter.try_acquire(-100, 60001));
}

#[test]
fn per_chat_queues_keep_arrival_order() {
    let mut fifo = KeyedFifo::new();
    fifo.push("qq:10001/g".to_string(), 1);
    fifo.push("qq:10001/g".to_string(), 2);
    fifo.push("qq:10001/p".to_string(), 9);
    assert_eq!(fifo.pop("qq:10001/g"), Some(1));
    assert_eq!(fifo.pop("qq:10001/g"), Some(2));
    assert_eq!(fifo.pop("qq:10001/g"), None);
    assert_eq!(fifo.pop("qq:10001/p"), Some(9));
    assert_eq!(fifo.pop("unknown"), None);
}
