use redisson_rs::config::equal_jitter_delay::EqualJitterDelay;
use redisson_rs::config::redisson_config::{check_sharding_support, sharding_probe_needed, RedissonConfig};
use redisson_rs::config::server_mode::ServerMode;
use redisson_rs::config::sharded_subscription_mode::ShardedSubscriptionMode;
use redisson_rs::connection::service_manager::ServiceManager;

fn config(mode: ServerMode, sharded: ShardedSubscriptionMode) -> RedissonConfig {
    RedissonConfig {
        mode,
        sharded_subscription_mode: sharded,
        subscription_timeout: 7500,
        command_timeout_ms: 3000,
        retry_attempts: 3,
        retry_delay: EqualJitterDelay { base_delay_ms: 1000, max_delay_ms: 2000 },
        lock_watchdog_timeout: 30,
        use_script_cache: true,
    }
}

fn is_uuid_text(s: &str) -> bool {
    s.len() == 36
        && s.chars().enumerate().all(|(i, c)| {
            if i == 8 || i == 13 || i == 18 || i == 23 {
                c == '-'
            } else {
                c.is_ascii_digit() || ('a'..='f').contains(&c)
            }
        })
        && s.chars().nth(14) == Some('4')
}

#[test]
fn publish_command_outside_cluster_is_publish() {
    for sharded in [ShardedSubscriptionMode::Auto, ShardedSubscriptionMode::On, ShardedSubscriptionMode::Off] {
        for mode in [ServerMode::Standalone, ServerMode::Sentinel] {
            let cfg = config(mode, sharded);
            assert!(!sharding_probe_needed(&cfg));
            assert_eq!(check_sharding_support(&cfg, true), "publish");
            assert_eq!(check_sharding_support(&cfg, false), "publish");
        }
    }
}

#[test]
fn publish_command_in_cluster_follows_the_mode() {
    let off = config(ServerMode::Cluster, ShardedSubscriptionMode::Off);
    assert!(!sharding_probe_needed(&off));
    assert_eq!(check_sharding_support(&off, true), "publish");
    let on = config(ServerMode::Cluster, ShardedSubscriptionMode::On);
    assert!(!sharding_probe_needed(&on));
    assert_eq!(check_sharding_support(&on, false), "spublish");
    let auto = config(ServerMode::Cluster, ShardedSubscriptionMode::Auto);
    assert!(sharding_probe_needed(&auto));
    assert_eq!(check_sharding_support(&auto, true), "spublish");
    assert_eq!(check_sharding_support(&auto, false), "publish");
}

#[test]
fn watchdog_timeout_in_ms() {
    let cfg = config(ServerMode::Standalone, ShardedSubscriptionMode::Off);
    assert!(cfg.watchdog_timeout_fits());
    assert_eq!(cfg.lock_watchdog_timeout_ms(), 30000);
    let mut big = cfg;
    big.lock_watchdog_timeout = u64::MAX / 1000;
    assert!(big.watchdog_timeout_fits());
    assert_eq!(big.lock_watchdog_timeout_ms(), (u64::MAX / 1000) * 1000);
    big.lock_watchdog_timeout = u64::MAX / 1000 + 1;
    assert!(!big.watchdog_timeout_fits());
}

#[test]
fn backoff_doubles_up_to_the_maximum() {
    let d = EqualJitterDelay { base_delay_ms: 100, max_delay_ms: 1000 };
    assert_eq!(d.delay_cap_ms(0), 100);
    assert_eq!(d.delay_cap_ms(1), 200);
    assert_eq!(d.delay_cap_ms(3), 800);
    assert_eq!(d.delay_cap_ms(4), 1000);
    assert_eq!(d.delay_cap_ms(100), 1000);
    assert_eq!(d.delay_cap_ms(u32::MAX), 1000);
    let zero = EqualJitterDelay { base_delay_ms: 0, max_delay_ms: 1000 };
    assert_eq!(zero.delay_cap_ms(u32::MAX), 0);
    let big = EqualJitterDelay { base_delay_ms: 5000, max_delay_ms: 1000 };
    assert_eq!(big.delay_cap_ms(0), 1000);
    let wide = EqualJitterDelay { base_delay_ms: 1, max_delay_ms: u64::MAX };
    assert_eq!(wide.delay_cap_ms(63), 1u64 << 63);
    assert_eq!(wide.delay_cap_ms(64), u64::MAX);
}

#[test]
fn equal_jitter_delay_adds_part_of_the_other_half() {
    let d = EqualJitterDelay { base_delay_ms: 100, max_delay_ms: 1000 };
    assert_eq!(d.calc_delay_from(1, 7), 107);
    assert_eq!(d.calc_delay_from(1, 101), 100);
    assert_eq!(d.calc_delay_from(1, 100), 200);
    for _ in 0..50 {
        let x = d.calc_delay(2);
        assert!(200 <= x && x <= 400);
    }
}

#[test]
fn service_manager_has_a_uuid_id() {
    let sm: ServiceManager<u32> = ServiceManager::new(
        config(ServerMode::Standalone, ShardedSubscriptionMode::Auto),
        7500,
        3000,
        3,
        EqualJitterDelay { base_delay_ms: 1000, max_delay_ms: 2000 },
    );
    assert!(is_uuid_text(sm.id()));
    let other: ServiceManager<u32> = ServiceManager::new(
        config(ServerMode::Standalone, ShardedSubscriptionMode::Auto),
        7500,
        3000,
        3,
        EqualJitterDelay { base_delay_ms: 1000, max_delay_ms: 2000 },
    );
    assert_ne!(sm.id(), other.id());
    assert_eq!(sm.subscribe_timeout_ms(), 7500);
    assert_eq!(sm.subscribe_time_limit_ms(), Some(7500));
    assert_eq!(sm.cfg().mode, ServerMode::Standalone);
    assert!(!sm.is_cluster_config());
}

#[test]
fn service_manager_keeps_the_first_scheduler() {
    let mut sm: ServiceManager<u32> = ServiceManager::new(
        config(ServerMode::Cluster, ShardedSubscriptionMode::Auto),
        0,
        3000,
        3,
        EqualJitterDelay { base_delay_ms: 1000, max_delay_ms: 2000 },
    );
    assert!(sm.is_cluster_config());
    assert_eq!(sm.subscribe_time_limit_ms(), None);
    assert!(!sm.has_renewal_scheduler());
    sm.register(5);
    assert!(sm.has_renewal_scheduler());
    sm.register(6);
    assert_eq!(*sm.renewal_scheduler(), 5);
}

#[test]
fn unlock_latch_timeout() {
    let sm: ServiceManager<u32> = ServiceManager::new(
        config(ServerMode::Standalone, ShardedSubscriptionMode::Off),
        0,
        3000,
        3,
        EqualJitterDelay { base_delay_ms: 1000, max_delay_ms: 2000 },
    );
    assert_eq!(sm.calc_unlock_latch_timeout_with(500), 10500);
    for _ in 0..50 {
        let t = sm.calc_unlock_latch_timeout_ms();
        assert!((3000 + 1000) * 3 <= t && t <= (3000 + 2000) * 3);
    }
    let none: ServiceManager<u32> = ServiceManager::new(
        config(ServerMode::Standalone, ShardedSubscriptionMode::Off),
        0,
        3000,
        0,
        EqualJitterDelay { base_delay_ms: 1000, max_delay_ms: 2000 },
    );
    assert_eq!(none.calc_unlock_latch_timeout_with(500), 1);
    assert_eq!(none.calc_unlock_latch_timeout_ms(), 1);
}

#[test]
fn latch_timeout_fits_checks_overflow() {
    let ok: ServiceManager<u32> = ServiceManager::new(
        config(ServerMode::Standalone, ShardedSubscriptionMode::Off),
        0,
        3000,
        3,
        EqualJitterDelay { base_delay_ms: 1000, max_delay_ms: 2000 },
    );
    assert!(ok.latch_timeout_fits());
    let big: ServiceManager<u32> = ServiceManager::new(
        config(ServerMode::Standalone, ShardedSubscriptionMode::Off),
        0,
        u64::MAX / 2,
        3,
        EqualJitterDelay { base_delay_ms: 1000, max_delay_ms: 2000 },
    );
    assert!(!big.latch_timeout_fits());
    let sum: ServiceManager<u32> = ServiceManager::new(
        config(ServerMode::Standalone, ShardedSubscriptionMode::Off),
        0,
        u64::MAX,
        0,
        EqualJitterDelay { base_delay_ms: 1000, max_delay_ms: 2000 },
    );
    assert!(!sum.latch_timeout_fits());
}
