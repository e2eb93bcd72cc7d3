use vstd::prelude::*;
use crate::config::equal_jitter_delay::EqualJitterDelay;
use crate::config::redisson_config::RedissonConfig;
use crate::config::server_mode::ServerMode;
use crate::outside::{is_hyphenated_uuid_v4, new_uuid_v4_string};

verus! {

/// The larger of `x` and 1.
pub open spec fn at_least_one(x: int) -> int {
    if x < 1 { 1 } else { x }
}

/// The time an unlock's latch key lives: every retry may take the command
/// timeout plus one retry delay; at least 1 ms.
pub open spec fn unlock_latch_timeout_spec(command_timeout_ms: nat, delay_ms: nat, retry_attempts: nat) -> int {
    at_least_one(((command_timeout_ms + delay_ms) * retry_attempts) as int)
}

/// Services shared by every object of one client: the client's random id,
/// the watchdog scheduler `S` (registered once, after construction), the
/// configuration, and the timeouts and retry policy of commands.
pub struct ServiceManager<S> {
    pub(crate) id: String,
    pub(crate) renewal_scheduler: Option<S>,
    pub(crate) cfg: RedissonConfig,
    pub(crate) subscribe_timeout_ms: u64,
    pub(crate) command_timeout_ms: u64,
    pub(crate) retry_attempts: u32,
    pub(crate) retry_delay: EqualJitterDelay,
}

impl<S> ServiceManager<S> {
    pub closed spec fn id_spec(&self) -> Seq<char> {
        self.id@
    }

    pub closed spec fn scheduler_spec(&self) -> Option<S> {
        self.renewal_scheduler
    }

    pub closed spec fn cfg_spec(&self) -> RedissonConfig {
        self.cfg
    }

    pub closed spec fn subscribe_timeout_spec(&self) -> u64 {
        self.subscribe_timeout_ms
    }

    pub closed spec fn command_timeout_spec(&self) -> u64 {
        self.command_timeout_ms
    }

    pub closed spec fn retry_attempts_spec(&self) -> u32 {
        self.retry_attempts
    }

    pub closed spec fn retry_delay_spec(&self) -> EqualJitterDelay {
        self.retry_delay
    }

    /// Whether no retry can make the latch timeout overflow `u64`.
    pub open spec fn latch_timeout_in_range(&self) -> bool {
        &&& self.command_timeout_spec() + self.retry_delay_spec().cap_spec(self.retry_attempts_spec() as nat) <= u64::MAX
        &&& (self.command_timeout_spec() + self.retry_delay_spec().cap_spec(self.retry_attempts_spec() as nat))
            * self.retry_attempts_spec() <= u64::MAX
    }

    /// Builds the services with a fresh random id (a v4 UUID) and no
    /// scheduler yet.
    pub fn new(
        config: RedissonConfig,
        subscribe_timeout_ms: u64,
        command_timeout_ms: u64,
        retry_attempts: u32,
        retry_delay: EqualJitterDelay,
    ) -> (sm: Self)
        ensures
            is_hyphenated_uuid_v4(sm.id_spec()),
            sm.scheduler_spec() is None,
            sm.cfg_spec() == config,
            sm.subscribe_timeout_spec() == subscribe_timeout_ms,
            sm.command_timeout_spec() == command_timeout_ms,
            sm.retry_attempts_spec() == retry_attempts,
            sm.retry_delay_spec() == retry_delay,
    {
        Self {
            id: new_uuid_v4_string(),
            renewal_scheduler: None,
            cfg: config,
            subscribe_timeout_ms,
            command_timeout_ms,
            retry_attempts,
            retry_delay,
        }
    }

    /// Registers the watchdog scheduler; only the first one registered is kept.
    pub fn register(&mut self, scheduler: S)
        ensures
            final(self).scheduler_spec() == (match old(self).scheduler_spec() {
                Some(s) => Some(s),
                None => Some(scheduler),
            }),
            final(self).id_spec() == old(self).id_spec(),
            final(self).cfg_spec() == old(self).cfg_spec(),
            final(self).subscribe_timeout_spec() == old(self).subscribe_timeout_spec(),
            final(self).command_timeout_spec() == old(self).command_timeout_spec(),
            final(self).retry_attempts_spec() == old(self).retry_attempts_spec(),
            final(self).retry_delay_spec() == old(self).retry_delay_spec(),
    {
        if self.renewal_scheduler.is_none() {
            self.renewal_scheduler = Some(scheduler);
        }
    }

    pub fn id(&self) -> (s: &str)
        ensures
            s@ == self.id_spec(),
    {
        self.id.as_str()
    }

    /// Whether a scheduler is registered, so that `renewal_scheduler` may
    /// be called.
    pub fn has_renewal_scheduler(&self) -> (b: bool)
        ensures
            b == (self.scheduler_spec() is Some),
    {
        self.renewal_scheduler.is_some()
    }

    /// The registered scheduler.
    pub fn renewal_scheduler(&self) -> (s: &S)
        requires
            self.scheduler_spec() is Some,
        ensures
            self.scheduler_spec() == Some(*s),
    {
        match &self.renewal_scheduler {
            Some(s) => s,
            None => {
                proof {
                    assert(false);
                }
                vstd::pervasive::unreached()
            },
        }
    }

    pub fn subscribe_timeout_ms(&self) -> (ms: u64)
        ensures
            ms == self.subscribe_timeout_spec(),
    {
        self.subscribe_timeout_ms
    }

    /// How long a subscription may take: no limit when the timeout is 0.
    pub fn subscribe_time_limit_ms(&self) -> (limit: Option<u64>)
        ensures
            limit == (if self.subscribe_timeout_spec() == 0 { None } else { Some(self.subscribe_timeout_spec()) }),
    {
        if self.subscribe_timeout_ms == 0 { None } else { Some(self.subscribe_timeout_ms) }
    }

    pub fn cfg(&self) -> (c: &RedissonConfig)
        ensures
            *c == self.cfg_spec(),
    {
        &self.cfg
    }

    /// The latch timeout for a given retry delay.
    pub fn calc_unlock_latch_timeout_with(&self, delay_ms: u64) -> (ms: u64)
        requires
            self.command_timeout_spec() + delay_ms <= u64::MAX,
            (self.command_timeout_spec() + delay_ms) * self.retry_attempts_spec() <= u64::MAX,
        ensures
            ms == unlock_latch_timeout_spec(
                self.command_timeout_spec() as nat,
                delay_ms as nat,
                self.retry_attempts_spec() as nat,
            ),
    {
        let timeout = (self.command_timeout_ms + delay_ms) * (self.retry_attempts as u64);
        if timeout < 1 { 1 } else { timeout }
    }

    /// How long an unlock's latch key lives, in ms: the retry delay for the
    /// configured number of attempts is drawn at random within its bounds.
    pub fn calc_unlock_latch_timeout_ms(&self) -> (ms: u64)
        requires
            self.latch_timeout_in_range(),
        ensures
            exists|d: nat|
                self.retry_delay_spec().cap_spec(self.retry_attempts_spec() as nat) / 2 <= d
                && d <= self.retry_delay_spec().cap_spec(self.retry_attempts_spec() as nat)
                && ms == unlock_latch_timeout_spec(self.command_timeout_spec() as nat, d, self.retry_attempts_spec() as nat),
    {
        let delay = self.retry_delay.calc_delay(self.retry_attempts);
        proof {
            let cap = self.retry_delay.cap_spec(self.retry_attempts as nat);
            assert((self.command_timeout_ms + delay) * self.retry_attempts
                <= (self.command_timeout_ms + cap) * self.retry_attempts) by (nonlinear_arith)
                requires
                    delay <= cap,
                    0 <= self.retry_attempts;
        }
        self.calc_unlock_latch_timeout_with(delay)
    }

    /// Whether no retry can make the latch timeout overflow `u64`, so that
    /// `calc_unlock_latch_timeout_ms` may be called.
    pub fn latch_timeout_fits(&self) -> (b: bool)
        ensures
            b == self.latch_timeout_in_range(),
    {
        let cap = self.retry_delay.delay_cap_ms(self.retry_attempts);
        match self.command_timeout_ms.checked_add(cap) {
            Some(sum) => match sum.checked_mul(self.retry_attempts as u64) {
                Some(_) => true,
                None => false,
            },
            None => false,
        }
    }

    /// Whether the client talks to a Redis Cluster.
    pub fn is_cluster_config(&self) -> (b: bool)
        ensures
            b == (self.cfg_spec().mode == ServerMode::Cluster),
    {
        match self.cfg.mode {
            ServerMode::Cluster => true,
            _ => false,
        }
    }
}

} // verus!
