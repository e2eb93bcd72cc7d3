use vstd::prelude::*;
use crate::config::equal_jitter_delay::EqualJitterDelay;
use crate::config::server_mode::ServerMode;
use crate::config::sharded_subscription_mode::ShardedSubscriptionMode;

verus! {

/// The settings that the lock and its services read. How to reach the
/// servers (addresses, pool size, reconnect policy) is the caller's business.
#[derive(Clone, Copy, Debug, PartialEq, Eq, Structural)]
pub struct RedissonConfig {
    pub mode: ServerMode,
    pub sharded_subscription_mode: ShardedSubscriptionMode,
    /// How long to wait for a Pub/Sub subscription, in ms (0: no limit).
    pub subscription_timeout: u64,
    /// How long to wait for a command's reply, in ms.
    pub command_timeout_ms: u64,
    /// How often a command is retried.
    pub retry_attempts: u32,
    /// The delay between retries.
    pub retry_delay: EqualJitterDelay,
    /// The lease the watchdog keeps renewing, in seconds.
    pub lock_watchdog_timeout: u64,
    /// Whether scripts are sent by their SHA when the server caches them.
    pub use_script_cache: bool,
}

/// Whether the publish command has to be found out by asking the server.
pub open spec fn sharding_probe_needed_spec(cfg: RedissonConfig) -> bool {
    cfg.mode == ServerMode::Cluster && cfg.sharded_subscription_mode == ShardedSubscriptionMode::Auto
}

/// The command that publishes unlock notifications: `spublish` on a cluster
/// with sharded Pub/Sub switched on, or switched to "auto" and answered by
/// the server's probe; `publish` otherwise.
pub open spec fn publish_command_spec(cfg: RedissonConfig, probe_supported: bool) -> Seq<char> {
    if cfg.mode != ServerMode::Cluster {
        "publish"@
    } else {
        match cfg.sharded_subscription_mode {
            ShardedSubscriptionMode::Off => "publish"@,
            ShardedSubscriptionMode::On => "spublish"@,
            ShardedSubscriptionMode::Auto => if probe_supported { "spublish"@ } else { "publish"@ },
        }
    }
}

impl RedissonConfig {
    /// Whether the watchdog lease in ms fits in `u64`.
    pub fn watchdog_timeout_fits(&self) -> (b: bool)
        ensures
            b == (self.lock_watchdog_timeout * 1000 <= u64::MAX),
    {
        self.lock_watchdog_timeout <= u64::MAX / 1000
    }

    /// The watchdog lease in ms.
    pub fn lock_watchdog_timeout_ms(&self) -> (ms: u64)
        requires
            self.lock_watchdog_timeout * 1000 <= u64::MAX,
        ensures
            ms == self.lock_watchdog_timeout * 1000,
    {
        self.lock_watchdog_timeout * 1000
    }
}

/// Whether `check_sharding_support` needs the server's answer to
/// `PUBSUB SHARDNUMSUB`.
pub fn sharding_probe_needed(cfg: &RedissonConfig) -> (b: bool)
    ensures
        b == sharding_probe_needed_spec(*cfg),
{
    match cfg.mode {
        ServerMode::Cluster => match cfg.sharded_subscription_mode {
            ShardedSubscriptionMode::Auto => true,
            _ => false,
        },
        _ => false,
    }
}

/// Picks the publish command. `probe_supported` is whether the server
/// accepted `PUBSUB SHARDNUMSUB`; it is read only when the probe is needed.
pub fn check_sharding_support(cfg: &RedissonConfig, probe_supported: bool) -> (s: &'static str)
    ensures
        s@ == publish_command_spec(*cfg, probe_supported),
{
    match cfg.mode {
        ServerMode::Cluster => match cfg.sharded_subscription_mode {
            ShardedSubscriptionMode::Off => "publish",
            ShardedSubscriptionMode::On => "spublish",
            ShardedSubscriptionMode::Auto => if probe_supported { "spublish" } else { "publish" },
        },
        _ => "publish",
    }
}

/// What the publish command is, case by case: `publish` outside a cluster
/// and on a cluster with sharded Pub/Sub switched off, whatever the probe
/// said; `spublish` on a cluster with it switched on; on "auto" the probe
/// decides. The probe's answer matters only when the probe is needed.
pub proof fn lemma_publish_command_cases(cfg: RedissonConfig, probe_supported: bool)
    ensures
        cfg.mode != ServerMode::Cluster ==> publish_command_spec(cfg, probe_supported) == "publish"@,
        cfg.sharded_subscription_mode == ShardedSubscriptionMode::Off
            ==> publish_command_spec(cfg, probe_supported) == "publish"@,
        cfg.mode == ServerMode::Cluster && cfg.sharded_subscription_mode == ShardedSubscriptionMode::On
            ==> publish_command_spec(cfg, probe_supported) == "spublish"@,
        sharding_probe_needed_spec(cfg) ==> publish_command_spec(cfg, true) == "spublish"@
            && publish_command_spec(cfg, false) == "publish"@,
        !sharding_probe_needed_spec(cfg) ==> publish_command_spec(cfg, true) == publish_command_spec(cfg, false),
        sharding_probe_needed_spec(cfg) <==> (cfg.mode == ServerMode::Cluster
            && cfg.sharded_subscription_mode == ShardedSubscriptionMode::Auto),
{
}

} // verus!
