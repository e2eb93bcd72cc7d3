use vstd::prelude::*;
use vstd::string::*;
use crate::hash_tag::{hash_tag, lemma_hash_tag_prefix, lemma_hash_tag_suffix};
use crate::connection::service_manager::{unlock_latch_timeout_spec, ServiceManager};
use crate::outside::{current_task_id_text, is_hyphenated_uuid_v4, is_task_id_text, new_uuid_v4_string};
use crate::renewal::lock_renewal_scheduler::LockRenewalScheduler;
use crate::redisson_base_lock::{colon_join, hash_tagged, join_with_colon, RedissonBaseLock};
use crate::text::{decimal, decimal_string};

verus! {

/// Takes the lock when it is free or already held by `ARGV[2]`: counts one
/// more hold, sets the lease `ARGV[1]` and replies nil; otherwise replies
/// the lock's remaining time to live.
pub const LOCK_SCRIPT: &'static str = "if ((redis.call('exists', KEYS[1]) == 0) \
or (redis.call('hexists', KEYS[1], ARGV[2]) == 1)) then \
redis.call('hincrby', KEYS[1], ARGV[2], 1); \
redis.call('pexpire', KEYS[1], ARGV[1]); \
return nil; \
end; \
return redis.call('pttl', KEYS[1]);";

/// Releases one hold of `ARGV[3]`. A latch key `KEYS[3]` remembers the
/// reply for a retried request. Replies nil when `ARGV[3]` holds nothing,
/// 0 when holds remain (the lease is renewed to `ARGV[2]`), and 1 when the
/// lock was released (the key is deleted and `ARGV[1]` is published on the
/// channel `KEYS[2]` with the command `ARGV[4]`).
pub const UNLOCK_SCRIPT: &'static str = "local val = redis.call('get', KEYS[3]); \
if val ~= false then \
return tonumber(val);\
end; \
if (redis.call('hexists', KEYS[1], ARGV[3]) == 0) then \
return nil;\
end; \
local counter = redis.call('hincrby', KEYS[1], ARGV[3], -1); \
if (counter > 0) then \
redis.call('pexpire', KEYS[1], ARGV[2]); \
redis.call('set', KEYS[3], 0, 'px', ARGV[5]); \
return 0; \
else \
redis.call('del', KEYS[1]); \
redis.call(ARGV[4], KEYS[2], ARGV[1]); \
redis.call('set', KEYS[3], 1, 'px', ARGV[5]); \
return 1; \
end; ";

/// Replies how many holds `ARGV[1]` has on the lock.
pub const GET_HOLD_COUNT_SCRIPT: &'static str = "if redis.call('hexists', KEYS[1], ARGV[1]) == 1 then \
return redis.call('hget', KEYS[1], ARGV[1]) \
else \
return 0 \
end";

/// Deletes the lock whoever holds it; replies 1 and publishes on the
/// channel when there was a lock, 0 otherwise.
pub const FORCE_UNLOCK_SCRIPT: &'static str = "if (redis.call('del', KEYS[1]) == 1) then \
redis.call(ARGV[2], KEYS[2], ARGV[1]); \
return 1 \
else \
return 0 \
end";

/// The texts of a list of strings.
pub open spec fn texts(v: Seq<String>) -> Seq<Seq<char>> {
    v.map_values(|s: String| s@)
}

/// The channel on which the release of lock key `name` is announced.
pub open spec fn channel_name_spec(name: Seq<char>) -> Seq<char> {
    "redisson_lock__channel:"@ + name
}

/// The latch key of one unlock request.
pub open spec fn latch_key_spec(name: Seq<char>, request_id: Seq<char>) -> Seq<char> {
    "redisson_unlock_latch:"@ + name + seq![':'] + request_id
}

/// A Lua script with its keys and arguments, ready to be sent with `EVAL`.
pub struct ScriptCall {
    pub script: &'static str,
    pub keys: Vec<String>,
    pub args: Vec<String>,
}

/// Why a lock operation failed, beyond the errors of Redis itself.
#[derive(Clone, Copy, Debug, PartialEq, Eq, Structural)]
pub enum LockError {
    /// An unlock by a task that holds nothing of the lock.
    NotLockedByCurrentThread,
    /// An interruptible lock was cancelled while it waited.
    Interrupted,
    /// The subscription to the lock's channel took longer than this many ms.
    SubscribeTimeout(u64),
}

impl LockError {
    pub open spec fn message_spec(self) -> Seq<char> {
        match self {
            LockError::NotLockedByCurrentThread => "attempt to unlock lock, not locked by current thread"@,
            LockError::Interrupted => "lock_interruptibly: cancelled"@,
            LockError::SubscribeTimeout(ms) => "Subscribe timeout after "@ + decimal(ms as nat) + "ms"@,
        }
    }

    /// The error's message.
    pub fn message(&self) -> (s: String)
        ensures
            s@ == self.message_spec(),
    {
        match self {
            LockError::NotLockedByCurrentThread => String::from_str("attempt to unlock lock, not locked by current thread"),
            LockError::Interrupted => String::from_str("lock_interruptibly: cancelled"),
            LockError::SubscribeTimeout(ms) => {
                let digits = decimal_string(*ms);
                String::from_str("Subscribe timeout after ").concat(digits.as_str()).concat("ms")
            },
        }
    }
}

/// What an unlock reply says.
#[derive(Clone, Copy, Debug, PartialEq, Eq, Structural)]
pub enum UnlockOutcome {
    /// The caller held nothing of the lock (reply nil).
    NotHeld,
    /// One hold was released and others remain (reply 0).
    StillHeld,
    /// The last hold was released and the lock deleted (any other reply).
    Released,
}

/// Reads the reply of the unlock script.
pub open spec fn unlock_outcome_spec(reply: Option<i64>) -> UnlockOutcome {
    match reply {
        None => UnlockOutcome::NotHeld,
        Some(n) => if n == 0 { UnlockOutcome::StillHeld } else { UnlockOutcome::Released },
    }
}

pub fn unlock_outcome(reply: Option<i64>) -> (o: UnlockOutcome)
    ensures
        o == unlock_outcome_spec(reply),
{
    match reply {
        None => UnlockOutcome::NotHeld,
        Some(0) => UnlockOutcome::StillHeld,
        Some(_) => UnlockOutcome::Released,
    }
}

impl UnlockOutcome {
    /// Whether the watchdog stops renewing the lock: only when the lock was
    /// fully released. A failed unlock leaves the renewal of whoever holds
    /// the lock alone.
    pub open spec fn cancels_renewal_spec(self) -> bool {
        self == UnlockOutcome::Released
    }

    pub fn cancels_renewal(&self) -> (b: bool)
        ensures
            b == self.cancels_renewal_spec(),
    {
        match self {
            UnlockOutcome::Released => true,
            _ => false,
        }
    }

    /// What `unlock` returns.
    pub open spec fn result_spec(self) -> Result<(), LockError> {
        match self {
            UnlockOutcome::NotHeld => Err(LockError::NotLockedByCurrentThread),
            _ => Ok(()),
        }
    }

    pub fn result(&self) -> (r: Result<(), LockError>)
        ensures
            r == self.result_spec(),
    {
        match self {
            UnlockOutcome::NotHeld => Err(LockError::NotLockedByCurrentThread),
            _ => Ok(()),
        }
    }
}

/// Reads the reply of the force-unlock script: whether a lock was deleted.
pub fn force_unlock_outcome(reply: i64) -> (deleted: bool)
    ensures
        deleted == (reply == 1),
{
    reply == 1
}

/// The holder name of a lock of client `id` made by a task: `id:<task>`
/// with the task's id text, or `id:<uuid>` with a fresh v4 UUID when it is
/// made outside a task.
pub fn lock_name_for(id: &str, task_id: Option<String>) -> (s: String)
    ensures
        match task_id {
            Some(t) => s@ == colon_join(id@, t@),
            None => exists|u: Seq<char>| is_hyphenated_uuid_v4(u) && s@ == colon_join(id@, u),
        },
{
    let task_part = match task_id {
        Some(t) => t,
        None => new_uuid_v4_string(),
    };
    join_with_colon(id, task_part.as_str())
}

/// An unlock ready to be sent: the script call and the latch key that the
/// caller deletes once the reply is in.
pub struct UnlockRequest {
    pub call: ScriptCall,
    pub latch_key: String,
}

/// A reentrant distributed lock: its key and client (`base`), the lease the
/// watchdog keeps renewing, and the holder name `id:task` of the task that
/// made it.
pub struct RedissonLock {
    pub(crate) base: RedissonBaseLock,
    pub(crate) internal_lock_lease_time: u64,
    pub(crate) lock_name: String,
}

impl RedissonLock {
    pub closed spec fn name_spec(&self) -> Seq<char> {
        self.base.name_spec()
    }

    pub closed spec fn id_spec(&self) -> Seq<char> {
        self.base.id_spec()
    }

    pub closed spec fn entry_name_spec(&self) -> Seq<char> {
        self.base.entry_name_spec()
    }

    pub closed spec fn lock_name_spec(&self) -> Seq<char> {
        self.lock_name@
    }

    pub closed spec fn lease_spec(&self) -> u64 {
        self.internal_lock_lease_time
    }

    /// The lock called `key` of the client that `sm` serves, with the
    /// watchdog lease `internal_lock_lease_time`. The holder name is
    /// `lock_name_for` of the client id and the running task's id text.
    pub fn new<S>(sm: &ServiceManager<S>, internal_lock_lease_time: u64, key: &str) -> (l: Self)
        ensures
            l.name_spec() == hash_tagged(key@),
            l.id_spec() == sm.id_spec(),
            l.entry_name_spec() == colon_join(sm.id_spec(), hash_tagged(key@)),
            l.lease_spec() == internal_lock_lease_time,
            exists|task: Seq<char>| l.lock_name_spec() == colon_join(sm.id_spec(), task)
                && (is_task_id_text(task) || is_hyphenated_uuid_v4(task)),
    {
        let base = RedissonBaseLock::new(sm, key);
        let lock_name = lock_name_for(base.id(), current_task_id_text());
        Self { base, internal_lock_lease_time, lock_name }
    }

    pub fn base(&self) -> (b: &RedissonBaseLock)
        ensures
            b.name_spec() == self.name_spec(),
            b.id_spec() == self.id_spec(),
            b.entry_name_spec() == self.entry_name_spec(),
    {
        &self.base
    }

    pub fn name(&self) -> (s: &str)
        ensures
            s@ == self.name_spec(),
    {
        self.base.name()
    }

    pub fn entry_name(&self) -> (s: &str)
        ensures
            s@ == self.entry_name_spec(),
    {
        self.base.entry_name()
    }

    pub fn lock_name(&self) -> (s: &str)
        ensures
            s@ == self.lock_name_spec(),
    {
        self.lock_name.as_str()
    }

    pub fn internal_lock_lease_time(&self) -> (ms: u64)
        ensures
            ms == self.lease_spec(),
    {
        self.internal_lock_lease_time
    }

    /// The channel on which this lock's release is announced.
    pub fn get_channel_name(&self) -> (s: String)
        ensures
            s@ == channel_name_spec(self.name_spec()),
    {
        String::from_str("redisson_lock__channel:").concat(self.base.name())
    }

    /// The latch key of the unlock request `request_id`.
    pub fn unlock_latch_key(&self, request_id: &str) -> (s: String)
        ensures
            s@ == latch_key_spec(self.name_spec(), request_id@),
    {
        proof {
            reveal_strlit(":");
        }
        String::from_str("redisson_unlock_latch:").concat(self.base.name()).concat(":").concat(request_id)
    }

    /// The call that tries to take the lock for `lease_time` ms.
    pub fn lock_call(&self, lease_time: u64) -> (c: ScriptCall)
        ensures
            c.script@ == LOCK_SCRIPT@,
            texts(c.keys@) == seq![self.name_spec()],
            texts(c.args@) == seq![decimal(lease_time as nat), self.lock_name_spec()],
    {
        let mut keys: Vec<String> = Vec::new();
        keys.push(String::from_str(self.base.name()));
        let mut args: Vec<String> = Vec::new();
        args.push(decimal_string(lease_time));
        args.push(self.lock_name.clone());
        assert(texts(keys@) =~= seq![self.name_spec()]);
        assert(texts(args@) =~= seq![decimal(lease_time as nat), self.lock_name_spec()]);
        ScriptCall { script: LOCK_SCRIPT, keys, args }
    }

    /// The call that releases one hold: request `request_id`, announced with
    /// `publish_command`, its latch kept for `latch_timeout_ms`.
    pub fn unlock_call(&self, request_id: &str, publish_command: &str, latch_timeout_ms: u64) -> (c: ScriptCall)
        ensures
            c.script@ == UNLOCK_SCRIPT@,
            texts(c.keys@) == seq![
                self.name_spec(),
                channel_name_spec(self.name_spec()),
                latch_key_spec(self.name_spec(), request_id@),
            ],
            texts(c.args@) == seq![
                "0"@,
                decimal(self.lease_spec() as nat),
                self.lock_name_spec(),
                publish_command@,
                decimal(latch_timeout_ms as nat),
            ],
    {
        let mut keys: Vec<String> = Vec::new();
        keys.push(String::from_str(self.base.name()));
        keys.push(self.get_channel_name());
        keys.push(self.unlock_latch_key(request_id));
        let mut args: Vec<String> = Vec::new();
        args.push(String::from_str("0"));
        args.push(decimal_string(self.internal_lock_lease_time));
        args.push(self.lock_name.clone());
        args.push(String::from_str(publish_command));
        args.push(decimal_string(latch_timeout_ms));
        assert(texts(keys@) =~= seq![
            self.name_spec(),
            channel_name_spec(self.name_spec()),
            latch_key_spec(self.name_spec(), request_id@),
        ]);
        assert(texts(args@) =~= seq![
            "0"@,
            decimal(self.lease_spec() as nat),
            self.lock_name_spec(),
            publish_command@,
            decimal(latch_timeout_ms as nat),
        ]);
        ScriptCall { script: UNLOCK_SCRIPT, keys, args }
    }

    /// The call that deletes the lock whoever holds it.
    pub fn force_unlock_call(&self, publish_command: &str) -> (c: ScriptCall)
        ensures
            c.script@ == FORCE_UNLOCK_SCRIPT@,
            texts(c.keys@) == seq![self.name_spec(), channel_name_spec(self.name_spec())],
            texts(c.args@) == seq!["0"@, publish_command@],
    {
        let mut keys: Vec<String> = Vec::new();
        keys.push(String::from_str(self.base.name()));
        keys.push(self.get_channel_name());
        let mut args: Vec<String> = Vec::new();
        args.push(String::from_str("0"));
        args.push(String::from_str(publish_command));
        assert(texts(keys@) =~= seq![self.name_spec(), channel_name_spec(self.name_spec())]);
        assert(texts(args@) =~= seq!["0"@, publish_command@]);
        ScriptCall { script: FORCE_UNLOCK_SCRIPT, keys, args }
    }

    /// Prepares an unlock: a fresh request id (a v4 UUID) names the latch,
    /// whose lifetime is the client's unlock latch timeout.
    pub fn prepare_unlock<S>(&self, sm: &ServiceManager<S>, publish_command: &str) -> (r: UnlockRequest)
        requires
            sm.latch_timeout_in_range(),
        ensures
            exists|request_id: Seq<char>, latch_timeout_ms: u64, d: nat| {
                &&& is_hyphenated_uuid_v4(request_id)
                &&& sm.retry_delay_spec().cap_spec(sm.retry_attempts_spec() as nat) / 2 <= d
                &&& d <= sm.retry_delay_spec().cap_spec(sm.retry_attempts_spec() as nat)
                &&& latch_timeout_ms == unlock_latch_timeout_spec(sm.command_timeout_spec() as nat, d, sm.retry_attempts_spec() as nat)
                &&& r.latch_key@ == latch_key_spec(self.name_spec(), request_id)
                &&& r.call.script@ == UNLOCK_SCRIPT@
                &&& texts(r.call.keys@) == seq![
                    self.name_spec(),
                    channel_name_spec(self.name_spec()),
                    latch_key_spec(self.name_spec(), request_id),
                ]
                &&& texts(r.call.args@) == seq![
                    "0"@,
                    decimal(self.lease_spec() as nat),
                    self.lock_name_spec(),
                    publish_command@,
                    decimal(latch_timeout_ms as nat),
                ]
            },
    {
        let request_id = new_uuid_v4_string();
        let latch_key = self.unlock_latch_key(request_id.as_str());
        let latch_timeout: u64 = sm.calc_unlock_latch_timeout_ms();
        let call = self.unlock_call(request_id.as_str(), publish_command, latch_timeout);
        UnlockRequest { call, latch_key }
    }

    /// Reads the unlock reply: the watchdog stops renewing the lock when the
    /// last hold was released; an unlock by a task that held nothing fails
    /// and leaves the watchdog as it was.
    pub fn finish_unlock<E>(&self, scheduler: &mut LockRenewalScheduler<E>, reply: Option<i64>) -> (r: Result<(), LockError>)
        requires
            old(scheduler).inv(),
        ensures
            final(scheduler).inv(),
            r == unlock_outcome_spec(reply).result_spec(),
            final(scheduler).renewed() == (if unlock_outcome_spec(reply).cancels_renewal_spec() {
                old(scheduler).renewed().remove(self.name_spec())
            } else {
                old(scheduler).renewed()
            }),
            final(scheduler).has_task() == old(scheduler).has_task(),
            final(scheduler).running_spec() == old(scheduler).running_spec(),
            final(scheduler).is_shut_down() == old(scheduler).is_shut_down(),
            final(scheduler).lease_spec() == old(scheduler).lease_spec(),
            final(scheduler).executor_spec() == old(scheduler).executor_spec(),
    {
        let outcome = unlock_outcome(reply);
        if outcome.cancels_renewal() {
            self.base.cancel_expiration_renewal(scheduler);
        }
        outcome.result()
    }

    /// Prepares a force-unlock: the watchdog stops renewing the lock first.
    pub fn prepare_force_unlock<E>(&self, scheduler: &mut LockRenewalScheduler<E>, publish_command: &str) -> (c: ScriptCall)
        requires
            old(scheduler).inv(),
        ensures
            final(scheduler).inv(),
            final(scheduler).renewed() == old(scheduler).renewed().remove(self.name_spec()),
            final(scheduler).has_task() == old(scheduler).has_task(),
            final(scheduler).running_spec() == old(scheduler).running_spec(),
            final(scheduler).is_shut_down() == old(scheduler).is_shut_down(),
            final(scheduler).lease_spec() == old(scheduler).lease_spec(),
            final(scheduler).executor_spec() == old(scheduler).executor_spec(),
            c.script@ == FORCE_UNLOCK_SCRIPT@,
            texts(c.keys@) == seq![self.name_spec(), channel_name_spec(self.name_spec())],
            texts(c.args@) == seq!["0"@, publish_command@],
    {
        self.base.cancel_expiration_renewal(scheduler);
        self.force_unlock_call(publish_command)
    }

    /// Has the watchdog renew this lock for its holder. Returns whether the
    /// caller has to start the renewal loop.
    pub fn schedule_expiration_renewal<E>(&self, scheduler: &mut LockRenewalScheduler<E>) -> (start: bool)
        requires
            old(scheduler).inv(),
            old(scheduler).has_task() || old(scheduler).executor_spec() is Some,
        ensures
            final(scheduler).inv(),
            final(scheduler).has_task(),
            final(scheduler).renewed() == (if old(scheduler).renewed().contains_key(self.name_spec()) {
                old(scheduler).renewed()
            } else {
                old(scheduler).renewed().insert(self.name_spec(), self.lock_name_spec())
            }),
            start == (!old(scheduler).renewed().contains_key(self.name_spec()) && !old(scheduler).running_spec()
                && !old(scheduler).is_shut_down()),
            final(scheduler).running_spec() == (old(scheduler).running_spec() || start),
            final(scheduler).is_shut_down() == old(scheduler).is_shut_down(),
            final(scheduler).lease_spec() == old(scheduler).lease_spec(),
            final(scheduler).executor_spec() == old(scheduler).executor_spec(),
    {
        self.base.schedule_expiration_renewal(scheduler, self.lock_name.as_str())
    }

    /// The call that reads how many holds this lock's holder has.
    pub fn hold_count_call(&self) -> (c: ScriptCall)
        ensures
            c.script@ == GET_HOLD_COUNT_SCRIPT@,
            texts(c.keys@) == seq![self.name_spec()],
            texts(c.args@) == seq![self.lock_name_spec()],
    {
        let mut keys: Vec<String> = Vec::new();
        keys.push(String::from_str(self.base.name()));
        let mut args: Vec<String> = Vec::new();
        args.push(self.lock_name.clone());
        assert(texts(keys@) =~= seq![self.name_spec()]);
        assert(texts(args@) =~= seq![self.lock_name_spec()]);
        ScriptCall { script: GET_HOLD_COUNT_SCRIPT, keys, args }
    }
}

/// Every key that the lock's scripts touch (the lock key, its channel, and
/// the latch key of any unlock request) lies in the same Redis Cluster
/// slot as the lock key, whenever the lock key has a hash tag.
pub proof fn lemma_lock_keys_share_slot(name: Seq<char>, request_id: Seq<char>)
    requires
        hash_tag(name) is Some,
    ensures
        hash_tag(channel_name_spec(name)) == hash_tag(name),
        hash_tag(latch_key_spec(name, request_id)) == hash_tag(name),
{
    reveal_strlit("redisson_lock__channel:");
    reveal_strlit("redisson_unlock_latch:");
    let cp = "redisson_lock__channel:"@;
    let lp = "redisson_unlock_latch:"@;
    assert(!cp.contains('{')) by {
        if cp.contains('{') {
            let k = choose|k: int| 0 <= k < cp.len() && cp[k] == '{';
            assert(false);
        }
    }
    assert(!lp.contains('{')) by {
        if lp.contains('{') {
            let k = choose|k: int| 0 <= k < lp.len() && lp[k] == '{';
            assert(false);
        }
    }
    lemma_hash_tag_prefix(cp, name);
    let tail = seq![':'] + request_id;
    lemma_hash_tag_suffix(name, tail);
    lemma_hash_tag_prefix(lp, name + tail);
    assert(latch_key_spec(name, request_id) == lp + (name + tail));
}

} // verus!
