use redisson_rs::config::equal_jitter_delay::EqualJitterDelay;
use redisson_rs::config::redisson_config::RedissonConfig;
use redisson_rs::config::server_mode::ServerMode;
use redisson_rs::config::sharded_subscription_mode::ShardedSubscriptionMode;
use redisson_rs::connection::service_manager::ServiceManager;
use redisson_rs::lock_attempt::{AttemptOutcome, AttemptResult, LockAction, LockAttempt, LockEvent, LockMode};
use redisson_rs::redisson_lock::RedissonLock;

fn lock() -> RedissonLock {
    let sm: ServiceManager<u8> = ServiceManager::new(
        RedissonConfig {
            mode: ServerMode::Standalone,
            sharded_subscription_mode: ShardedSubscriptionMode::Auto,
            subscription_timeout: 0,
            command_timeout_ms: 3000,
            retry_attempts: 3,
            retry_delay: EqualJitterDelay { base_delay_ms: 1000, max_delay_ms: 2000 },
            lock_watchdog_timeout: 30,
            use_script_cache: true,
        },
        0,
        3000,
        3,
        EqualJitterDelay { base_delay_ms: 1000, max_delay_ms: 2000 },
    );
    RedissonLock::new(&sm, 30000, "orders")
}

fn finish(outcome: AttemptOutcome, schedule_renewal: bool, unsubscribe: bool) -> LockAction {
    LockAction::Finish(AttemptResult { outcome, schedule_renewal, unsubscribe })
}

#[test]
fn lock_taken_at_once() {
    let mut a = lock().lock_attempt();
    assert_eq!(a.step(LockEvent::Start), LockAction::TryAcquire { lease_ms: 30000 });
    assert_eq!(
        a.step(LockEvent::Replied { ttl_ms: None, elapsed_ms: 1 }),
        finish(AttemptOutcome::Acquired, true, false)
    );
    assert!(a.is_finished());
}

#[test]
fn lock_waits_for_release() {
    let mut a = lock().lock_attempt();
    a.step(LockEvent::Start);
    assert_eq!(a.step(LockEvent::Replied { ttl_ms: Some(500), elapsed_ms: 1 }), LockAction::Subscribe);
    assert_eq!(a.step(LockEvent::Subscribed { elapsed_ms: 2 }), LockAction::TryAcquire { lease_ms: 30000 });
    assert_eq!(
        a.step(LockEvent::Replied { ttl_ms: Some(500), elapsed_ms: 3 }),
        LockAction::Wait { wake_after_ms: 600, give_up_after_ms: None, cancellable: false }
    );
    assert_eq!(a.step(LockEvent::Woken { elapsed_ms: 400 }), LockAction::TryAcquire { lease_ms: 30000 });
    assert_eq!(
        a.step(LockEvent::Replied { ttl_ms: None, elapsed_ms: 401 }),
        finish(AttemptOutcome::Acquired, true, true)
    );
}

#[test]
fn lock_with_lease_does_not_use_the_watchdog() {
    let mut a = lock().lock_with_lease_attempt(10000);
    assert_eq!(a.step(LockEvent::Start), LockAction::TryAcquire { lease_ms: 10000 });
    assert_eq!(
        a.step(LockEvent::Replied { ttl_ms: None, elapsed_ms: 0 }),
        finish(AttemptOutcome::Acquired, false, false)
    );
}

#[test]
fn interruptible_lock_can_be_cancelled() {
    let mut a = lock().lock_interruptibly_attempt();
    a.step(LockEvent::Start);
    a.step(LockEvent::Replied { ttl_ms: Some(100), elapsed_ms: 0 });
    a.step(LockEvent::Subscribed { elapsed_ms: 0 });
    assert_eq!(
        a.step(LockEvent::Replied { ttl_ms: Some(100), elapsed_ms: 0 }),
        LockAction::Wait { wake_after_ms: 200, give_up_after_ms: None, cancellable: true }
    );
    assert_eq!(a.step(LockEvent::Cancelled), finish(AttemptOutcome::Interrupted, false, true));
}

#[test]
fn try_lock_tries_once() {
    let mut a = lock().try_lock_attempt();
    assert_eq!(a.step(LockEvent::Start), LockAction::TryAcquire { lease_ms: 30000 });
    assert_eq!(
        a.step(LockEvent::Replied { ttl_ms: Some(100), elapsed_ms: 0 }),
        finish(AttemptOutcome::NotAcquired, false, false)
    );
    let mut b = lock().try_lock_attempt();
    b.step(LockEvent::Start);
    assert_eq!(
        b.step(LockEvent::Replied { ttl_ms: None, elapsed_ms: 0 }),
        finish(AttemptOutcome::Acquired, true, false)
    );
}

#[test]
fn try_lock_with_timeout_gives_up() {
    let mut a = lock().try_lock_with_timeout_attempt(1000, Some(5000));
    assert_eq!(a.step(LockEvent::Start), LockAction::TryAcquire { lease_ms: 5000 });
    assert_eq!(a.step(LockEvent::Replied { ttl_ms: Some(300), elapsed_ms: 10 }), LockAction::Subscribe);
    assert_eq!(a.step(LockEvent::Subscribed { elapsed_ms: 20 }), LockAction::TryAcquire { lease_ms: 5000 });
    assert_eq!(
        a.step(LockEvent::Replied { ttl_ms: Some(2000), elapsed_ms: 25 }),
        LockAction::Wait { wake_after_ms: 980, give_up_after_ms: Some(980), cancellable: false }
    );
    assert_eq!(a.step(LockEvent::TimedOut), finish(AttemptOutcome::NotAcquired, false, true));
}

#[test]
fn try_lock_with_timeout_wakes_before_the_deadline() {
    let mut a = lock().try_lock_with_timeout_attempt(1000, None);
    assert_eq!(a.step(LockEvent::Start), LockAction::TryAcquire { lease_ms: 30000 });
    a.step(LockEvent::Replied { ttl_ms: Some(300), elapsed_ms: 0 });
    a.step(LockEvent::Subscribed { elapsed_ms: 0 });
    assert_eq!(
        a.step(LockEvent::Replied { ttl_ms: Some(300), elapsed_ms: 0 }),
        LockAction::Wait { wake_after_ms: 400, give_up_after_ms: Some(1000), cancellable: false }
    );
    assert_eq!(a.step(LockEvent::Woken { elapsed_ms: 400 }), LockAction::TryAcquire { lease_ms: 30000 });
    assert_eq!(
        a.step(LockEvent::Replied { ttl_ms: None, elapsed_ms: 410 }),
        finish(AttemptOutcome::Acquired, true, true)
    );
}

#[test]
fn try_lock_with_timeout_zero_wait() {
    let mut a = lock().try_lock_with_timeout_attempt(0, None);
    a.step(LockEvent::Start);
    assert_eq!(
        a.step(LockEvent::Replied { ttl_ms: Some(300), elapsed_ms: 0 }),
        finish(AttemptOutcome::NotAcquired, false, false)
    );
}

#[test]
fn deadline_passed_while_subscribing() {
    let mut a = lock().try_lock_with_timeout_attempt(100, None);
    a.step(LockEvent::Start);
    a.step(LockEvent::Replied { ttl_ms: Some(300), elapsed_ms: 5 });
    assert_eq!(a.step(LockEvent::Subscribed { elapsed_ms: 150 }), finish(AttemptOutcome::NotAcquired, false, true));
}

#[test]
fn failures_end_the_attempt() {
    let mut a = lock().lock_attempt();
    a.step(LockEvent::Start);
    a.step(LockEvent::Replied { ttl_ms: Some(300), elapsed_ms: 0 });
    assert_eq!(a.step(LockEvent::SubscribeFailed), finish(AttemptOutcome::SubscribeFailed, false, false));

    let mut b = lock().lock_attempt();
    b.step(LockEvent::Start);
    assert_eq!(b.step(LockEvent::CommandFailed), finish(AttemptOutcome::CommandFailed, false, false));

    let mut c = lock().lock_attempt();
    c.step(LockEvent::Start);
    c.step(LockEvent::Replied { ttl_ms: Some(300), elapsed_ms: 0 });
    c.step(LockEvent::Subscribed { elapsed_ms: 0 });
    assert_eq!(c.step(LockEvent::CommandFailed), finish(AttemptOutcome::CommandFailed, false, true));
}

#[test]
fn new_attempt_is_ready() {
    let a = LockAttempt::new(1, true, LockMode::Immediate);
    assert!(!a.is_finished());
    assert!(!a.subscribed);
}

#[test]
fn accepts_only_expected_events() {
    let mut a = lock().lock_attempt();
    assert!(a.accepts_event(LockEvent::Start));
    assert!(!a.accepts_event(LockEvent::Cancelled));
    a.step(LockEvent::Start);
    assert!(a.accepts_event(LockEvent::Replied { ttl_ms: Some(u64::MAX), elapsed_ms: 0 }));
    a.step(LockEvent::Replied { ttl_ms: Some(5), elapsed_ms: 0 });
    a.step(LockEvent::Subscribed { elapsed_ms: 0 });
    assert!(!a.accepts_event(LockEvent::Replied { ttl_ms: Some(u64::MAX), elapsed_ms: 0 }));
    assert!(a.accepts_event(LockEvent::Replied { ttl_ms: Some(u64::MAX - 100), elapsed_ms: 0 }));
    a.step(LockEvent::Replied { ttl_ms: Some(5), elapsed_ms: 0 });
    assert!(!a.accepts_event(LockEvent::Cancelled));
    assert!(!a.accepts_event(LockEvent::TimedOut));
    assert!(a.accepts_event(LockEvent::Woken { elapsed_ms: 1 }));
    let mut b = lock().lock_interruptibly_attempt();
    b.step(LockEvent::Start);
    b.step(LockEvent::Replied { ttl_ms: Some(5), elapsed_ms: 0 });
    b.step(LockEvent::Subscribed { elapsed_ms: 0 });
    b.step(LockEvent::Replied { ttl_ms: Some(5), elapsed_ms: 0 });
    assert!(b.accepts_event(LockEvent::Cancelled));
    b.step(LockEvent::Cancelled);
    assert!(!b.accepts_event(LockEvent::Start));
}
