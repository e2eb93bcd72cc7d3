use redisson_rs::config::equal_jitter_delay::EqualJitterDelay;
use redisson_rs::config::redisson_config::RedissonConfig;
use redisson_rs::config::server_mode::ServerMode;
use redisson_rs::config::sharded_subscription_mode::ShardedSubscriptionMode;
use redisson_rs::connection::service_manager::ServiceManager;
use redisson_rs::redisson_base_lock::RedissonBaseLock;
use redisson_rs::redisson_lock::{
    force_unlock_outcome, lock_name_for, unlock_outcome, LockError, RedissonLock, UnlockOutcome, FORCE_UNLOCK_SCRIPT,
    GET_HOLD_COUNT_SCRIPT, LOCK_SCRIPT, UNLOCK_SCRIPT,
};
use redisson_rs::renewal::lock_renewal_scheduler::LockRenewalScheduler;

fn services() -> ServiceManager<u8> {
    ServiceManager::new(
        RedissonConfig {
            mode: ServerMode::Standalone,
            sharded_subscription_mode: ShardedSubscriptionMode::Auto,
            subscription_timeout: 7500,
            command_timeout_ms: 3000,
            retry_attempts: 3,
            retry_delay: EqualJitterDelay { base_delay_ms: 1000, max_delay_ms: 2000 },
            lock_watchdog_timeout: 30,
            use_script_cache: true,
        },
        7500,
        3000,
        3,
        EqualJitterDelay { base_delay_ms: 1000, max_delay_ms: 2000 },
    )
}

fn scheduler() -> LockRenewalScheduler<()> {
    let mut s = LockRenewalScheduler::new(30000);
    s.set_executor(());
    s
}

#[test]
fn base_lock_names() {
    let sm = services();
    let b = RedissonBaseLock::new(&sm, "orders");
    assert_eq!(b.name(), "{orders}");
    assert_eq!(b.id(), sm.id());
    assert_eq!(b.entry_name(), format!("{}:{{orders}}", sm.id()));
}

#[test]
fn lock_names_outside_a_task() {
    let sm = services();
    let l = RedissonLock::new(&sm, 30000, "orders");
    assert_eq!(l.name(), "{orders}");
    assert_eq!(l.internal_lock_lease_time(), 30000);
    let prefix = format!("{}:", sm.id());
    assert!(l.lock_name().starts_with(&prefix));
    assert_eq!(l.lock_name().len(), prefix.len() + 36);
    assert_eq!(l.get_channel_name(), "redisson_lock__channel:{orders}");
    assert_eq!(l.unlock_latch_key("r1"), "redisson_unlock_latch:{orders}:r1");
}

#[test]
fn lock_names_inside_a_task_use_the_task_id() {
    let rt = tokio::runtime::Builder::new_current_thread().build().unwrap();
    let (id, lock_name, task_id) = rt.block_on(async {
        tokio::spawn(async {
            let sm = services();
            let l = RedissonLock::new(&sm, 30000, "orders");
            (sm.id().to_string(), l.lock_name().to_string(), format!("{:?}", tokio::task::id()))
        })
        .await
        .unwrap()
    });
    assert_eq!(lock_name, format!("{}:{}", id, task_id));
}

#[test]
fn script_texts() {
    assert_eq!(
        LOCK_SCRIPT,
        "if ((redis.call('exists', KEYS[1]) == 0) or (redis.call('hexists', KEYS[1], ARGV[2]) == 1)) then \
         redis.call('hincrby', KEYS[1], ARGV[2], 1); redis.call('pexpire', KEYS[1], ARGV[1]); return nil; end; \
         return redis.call('pttl', KEYS[1]);"
    );
    assert!(UNLOCK_SCRIPT.starts_with("local val = redis.call('get', KEYS[3]); if val ~= false then return tonumber(val);end; "));
    assert!(UNLOCK_SCRIPT.ends_with("redis.call('set', KEYS[3], 1, 'px', ARGV[5]); return 1; end; "));
    assert_eq!(
        GET_HOLD_COUNT_SCRIPT,
        "if redis.call('hexists', KEYS[1], ARGV[1]) == 1 then return redis.call('hget', KEYS[1], ARGV[1]) else return 0 end"
    );
    assert_eq!(
        FORCE_UNLOCK_SCRIPT,
        "if (redis.call('del', KEYS[1]) == 1) then redis.call(ARGV[2], KEYS[2], ARGV[1]); return 1 else return 0 end"
    );
}

#[test]
fn script_calls() {
    let sm = services();
    let l = RedissonLock::new(&sm, 30000, "orders");
    let c = l.lock_call(5000);
    assert_eq!(c.script, LOCK_SCRIPT);
    assert_eq!(c.keys, vec!["{orders}".to_string()]);
    assert_eq!(c.args, vec!["5000".to_string(), l.lock_name().to_string()]);

    let u = l.unlock_call("r1", "spublish", 12000);
    assert_eq!(u.script, UNLOCK_SCRIPT);
    assert_eq!(
        u.keys,
        vec![
            "{orders}".to_string(),
            "redisson_lock__channel:{orders}".to_string(),
            "redisson_unlock_latch:{orders}:r1".to_string(),
        ]
    );
    assert_eq!(
        u.args,
        vec![
            "0".to_string(),
            "30000".to_string(),
            l.lock_name().to_string(),
            "spublish".to_string(),
            "12000".to_string(),
        ]
    );

    let h = l.hold_count_call();
    assert_eq!(h.script, GET_HOLD_COUNT_SCRIPT);
    assert_eq!(h.keys, vec!["{orders}".to_string()]);
    assert_eq!(h.args, vec![l.lock_name().to_string()]);
}

#[test]
fn prepare_unlock_draws_a_request_id_and_latch_timeout() {
    let sm = services();
    let l = RedissonLock::new(&sm, 30000, "orders");
    let r = l.prepare_unlock(&sm, "publish");
    assert!(r.latch_key.starts_with("redisson_unlock_latch:{orders}:"));
    assert_eq!(r.latch_key.len(), "redisson_unlock_latch:{orders}:".len() + 36);
    assert_eq!(r.call.keys[2], r.latch_key);
    let timeout: u64 = r.call.args[4].parse().unwrap();
    assert!(12000 <= timeout && timeout <= 15000);
    assert_eq!(r.call.args[3], "publish");
    let other = l.prepare_unlock(&sm, "publish");
    assert_ne!(r.latch_key, other.latch_key);
}

#[test]
fn unlock_replies() {
    assert_eq!(unlock_outcome(None), UnlockOutcome::NotHeld);
    assert_eq!(unlock_outcome(Some(0)), UnlockOutcome::StillHeld);
    assert_eq!(unlock_outcome(Some(1)), UnlockOutcome::Released);
    assert_eq!(unlock_outcome(Some(7)), UnlockOutcome::Released);
    assert!(!UnlockOutcome::NotHeld.cancels_renewal());
    assert!(!UnlockOutcome::StillHeld.cancels_renewal());
    assert!(UnlockOutcome::Released.cancels_renewal());
    assert_eq!(UnlockOutcome::NotHeld.result(), Err(LockError::NotLockedByCurrentThread));
    assert_eq!(UnlockOutcome::Released.result(), Ok(()));
}

#[test]
fn finish_unlock_stops_the_watchdog_only_when_the_lock_is_released() {
    let sm = services();
    let l = RedissonLock::new(&sm, 30000, "orders");
    let mut s = scheduler();
    assert!(l.schedule_expiration_renewal(&mut s));
    assert_eq!(l.finish_unlock(&mut s, Some(0)), Ok(()));
    assert_eq!(s.renewal_snapshot(), vec![("{orders}".to_string(), l.lock_name().to_string())]);
    assert_eq!(l.finish_unlock(&mut s, Some(1)), Ok(()));
    assert!(s.renewal_snapshot().is_empty());
    l.schedule_expiration_renewal(&mut s);
    assert_eq!(l.finish_unlock(&mut s, None), Err(LockError::NotLockedByCurrentThread));
    assert_eq!(s.renewal_snapshot(), vec![("{orders}".to_string(), l.lock_name().to_string())]);
}

#[test]
fn force_unlock_cancels_renewal_first() {
    let sm = services();
    let l = RedissonLock::new(&sm, 30000, "orders");
    let mut s = scheduler();
    l.schedule_expiration_renewal(&mut s);
    let c = l.prepare_force_unlock(&mut s, "publish");
    assert!(s.renewal_snapshot().is_empty());
    assert_eq!(c.script, FORCE_UNLOCK_SCRIPT);
    assert_eq!(c.keys, vec!["{orders}".to_string(), "redisson_lock__channel:{orders}".to_string()]);
    assert_eq!(c.args, vec!["0".to_string(), "publish".to_string()]);
    assert!(force_unlock_outcome(1));
    assert!(!force_unlock_outcome(0));
}

#[test]
fn error_messages() {
    assert_eq!(
        LockError::NotLockedByCurrentThread.message(),
        "attempt to unlock lock, not locked by current thread"
    );
    assert_eq!(LockError::Interrupted.message(), "lock_interruptibly: cancelled");
    assert_eq!(LockError::SubscribeTimeout(7500).message(), "Subscribe timeout after 7500ms");
}

#[test]
fn holder_name_from_the_task_id() {
    assert_eq!(lock_name_for("client", Some("Id(7)".to_string())), "client:Id(7)");
    let outside = lock_name_for("client", None);
    assert!(outside.starts_with("client:"));
    assert_eq!(outside.len(), "client:".len() + 36);
    assert_ne!(outside, lock_name_for("client", None));
}
