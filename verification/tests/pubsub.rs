use redisson_rs::pubsub::channel_waiters::ChannelWaiters;

#[test]
fn first_waiter_subscribes_and_last_unsubscribes() {
    let mut w: ChannelWaiters<u32> = ChannelWaiters::new();
    assert!(w.notifier("c").is_none());
    assert!(w.can_join("c"));
    assert!(w.join("c", 1));
    assert!(!w.join("c", 2));
    assert_eq!(w.notifier("c"), Some(&1));
    assert!(w.join("d", 3));
    assert!(!w.leave("c"));
    assert_eq!(w.notifier("c"), Some(&1));
    assert!(w.leave("c"));
    assert!(w.notifier("c").is_none());
    assert!(!w.leave("c"));
    assert_eq!(w.notifier("d"), Some(&3));
    assert!(w.join("c", 4));
    assert_eq!(w.notifier("c"), Some(&4));
}
