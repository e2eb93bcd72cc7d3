use redisson_rs::renewal::lock_entry::LockEntry;
use redisson_rs::renewal::lock_renewal_scheduler::LockRenewalScheduler;
use redisson_rs::renewal::lock_task::{renewal_call, renewal_interval_ms, LockTask, RENEW_SCRIPT};
use redisson_rs::renewal::renewal_task::RenewalTask;

#[test]
fn lock_entry_keeps_its_owner() {
    let e = LockEntry::new("client:7".to_string());
    assert_eq!(e.owner_id(), "client:7");
}

#[test]
fn lock_task_adds_and_cancels() {
    let mut t = LockTask::new(30000);
    assert_eq!(t.internal_lock_lease_time(), 30000);
    assert!(t.snapshot().is_empty());
    t.add("{a}".to_string(), "c:1".to_string());
    t.add("{b}".to_string(), "c:2".to_string());
    t.add("{a}".to_string(), "c:9".to_string());
    assert_eq!(
        t.snapshot(),
        vec![("{a}".to_string(), "c:1".to_string()), ("{b}".to_string(), "c:2".to_string())]
    );
    assert!(t.is_renewing("{a}"));
    t.cancel_expiration_renewal("{a}");
    assert!(!t.is_renewing("{a}"));
    t.cancel_expiration_renewal("{zzz}");
    assert_eq!(t.snapshot(), vec![("{b}".to_string(), "c:2".to_string())]);
}

#[test]
fn lock_task_starts_once_and_not_after_shutdown() {
    let mut t = LockTask::new(1000);
    assert!(t.try_run());
    assert!(!t.try_run());
    t.shutdown();
    assert!(!t.try_run());
    let mut u = LockTask::new(1000);
    u.shutdown();
    assert!(!u.try_run());
}

#[test]
fn scheduler_renews_and_cancels() {
    let mut s: LockRenewalScheduler<&str> = LockRenewalScheduler::new(30000);
    assert_eq!(s.internal_lock_lease_time(), 30000);
    assert!(s.executor().is_none());
    s.cancel_lock_renewal("{a}");
    s.shutdown();
    s.set_executor("first");
    s.set_executor("second");
    assert_eq!(s.executor(), Some(&"first"));
    assert!(s.renew_lock("{a}".to_string(), "c:1".to_string()));
    assert!(!s.renew_lock("{a}".to_string(), "c:1".to_string()));
    assert!(!s.renew_lock("{b}".to_string(), "c:2".to_string()));
    assert_eq!(s.renewal_snapshot().len(), 2);
    s.cancel_lock_renewal("{a}");
    assert_eq!(s.renewal_snapshot(), vec![("{b}".to_string(), "c:2".to_string())]);
    s.shutdown();
    assert!(!s.renew_lock("{c}".to_string(), "c:3".to_string()));
    assert_eq!(s.renewal_snapshot().len(), 2);
}

#[test]
fn renewal_script_call_and_interval() {
    let c = renewal_call("{a}", "c:1", 30000);
    assert_eq!(c.script, RENEW_SCRIPT);
    assert_eq!(c.keys, vec!["{a}".to_string()]);
    assert_eq!(c.args, vec!["30000".to_string(), "c:1".to_string()]);
    assert_eq!(
        RENEW_SCRIPT,
        "if (redis.call('hexists', KEYS[1], ARGV[2]) == 1) then redis.call('pexpire', KEYS[1], ARGV[1]); return 1; end; return 0;"
    );
    assert_eq!(renewal_interval_ms(30000), 10000);
    assert_eq!(renewal_interval_ms(2), 1);
    assert_eq!(renewal_interval_ms(0), 1);
}

#[test]
fn renewal_replies_drop_lost_locks() {
    let mut s: LockRenewalScheduler<()> = LockRenewalScheduler::new(30000);
    s.set_executor(());
    assert!(!s.renewal_running());
    assert!(s.renew_lock("{a}".to_string(), "c:1".to_string()));
    assert!(s.renewal_running());
    s.renew_lock("{b}".to_string(), "c:2".to_string());
    assert!(s.apply_renewal_reply("{a}", 1));
    assert_eq!(s.renewal_snapshot().len(), 2);
    assert!(!s.apply_renewal_reply("{a}", 0));
    assert_eq!(s.renewal_snapshot(), vec![("{b}".to_string(), "c:2".to_string())]);
    s.shutdown();
    assert!(!s.renewal_running());
}

#[test]
fn renewal_loop_starts_once_and_stops_at_shutdown() {
    let mut s: LockRenewalScheduler<()> = LockRenewalScheduler::new(30000);
    s.set_executor(());
    assert!(!s.renewal_running());
    assert!(s.renew_lock("{a}".to_string(), "c:1".to_string()));
    assert!(s.renewal_running());
    assert!(!s.renew_lock("{b}".to_string(), "c:2".to_string()));
    s.cancel_lock_renewal("{a}");
    assert!(s.renewal_running());
    s.shutdown();
    assert!(!s.renewal_running());
    assert!(!s.renew_lock("{c}".to_string(), "c:3".to_string()));
    assert!(!s.renewal_running());
}

#[test]
fn cancel_without_task_has_no_effect() {
    let mut s: LockRenewalScheduler<()> = LockRenewalScheduler::new(30000);
    s.cancel_lock_renewal("{a}");
    s.shutdown();
    assert!(s.renewal_snapshot().is_empty());
    assert!(!s.renewal_running());
    assert!(s.executor().is_none());
}
