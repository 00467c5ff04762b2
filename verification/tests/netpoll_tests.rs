use mygoroutine::netpoll::{kqueue_timeout, NetPoller};

#[test]
fn register_poll_unregister() {
    let mut p = NetPoller::new(3);
    assert_eq!(p.poll_fd(), 3);
    assert!(!p.has_waiters());
    p.register_read(10, 100);
    p.register_read(11, 101);
    assert!(p.has_waiters());
    assert_eq!(p.poll(&vec![11, 12, 10]), vec![101, 100]);
    p.unregister(10);
    assert_eq!(p.poll(&vec![10, 11]), vec![101]);
    p.unregister(11);
    assert!(!p.has_waiters());
    assert!(p.poll(&vec![10, 11]).is_empty());
}

#[test]
fn kqueue_timeout_splits_milliseconds() {
    assert_eq!(kqueue_timeout(0), (0, 0));
    assert_eq!(kqueue_timeout(100), (0, 100_000_000));
    assert_eq!(kqueue_timeout(2_500), (2, 500_000_000));
    assert_eq!(kqueue_timeout(-1_500), (-1, -500_000_000));
}
