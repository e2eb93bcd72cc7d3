use vstd::prelude::*;
use crate::lock_script_model::{is_free, lock_script, lock_state_inv, RedisLockState};
use crate::redisson_lock::RedissonLock;

verus! {

/// How an attempt to take the lock waits.
#[derive(Clone, Copy, Debug, PartialEq, Eq, Structural)]
pub enum LockMode {
    /// Waits until the lock is taken; `interruptible` attempts may be cancelled.
    Blocking { interruptible: bool },
    /// Gives up after `wait_ms` ms.
    Timed { wait_ms: u64 },
    /// Tries once.
    Immediate,
}

/// Where an attempt stands.
#[derive(Clone, Copy, Debug, PartialEq, Eq, Structural)]
pub enum AttemptPhase {
    /// Not started.
    Ready,
    /// The first try was sent.
    FirstTry,
    /// The subscription to the lock's channel was asked for.
    Subscribing,
    /// A later try was sent; `remaining_ms` is the time left of a timed wait.
    Retrying { remaining_ms: Option<u64> },
    /// Waiting for the lock's release or for its lease to run out.
    Waiting,
    /// Done; the attempt takes no more events.
    Finished,
}

/// What the caller observed since the last action.
#[derive(Clone, Copy, Debug, PartialEq, Eq, Structural)]
pub enum LockEvent {
    /// The attempt is to begin.
    Start,
    /// The lock script replied: nil (`None`) when the lock was taken, else
    /// the lock's remaining time to live. `elapsed_ms` is the time since the
    /// attempt began.
    Replied { ttl_ms: Option<u64>, elapsed_ms: u64 },
    /// The lock script could not be run.
    CommandFailed,
    /// The subscription is in place.
    Subscribed { elapsed_ms: u64 },
    /// The subscription failed or timed out.
    SubscribeFailed,
    /// The wait ended: the lock was released, or the wake-up time came.
    Woken { elapsed_ms: u64 },
    /// A timed attempt's remaining time ran out while it waited.
    TimedOut,
    /// An interruptible attempt was cancelled while it waited.
    Cancelled,
}

/// How an attempt ended.
#[derive(Clone, Copy, Debug, PartialEq, Eq, Structural)]
pub enum AttemptOutcome {
    Acquired,
    NotAcquired,
    CommandFailed,
    SubscribeFailed,
    Interrupted,
}

/// The end of an attempt: its outcome, whether the watchdog is to renew the
/// lock, and whether the channel subscription is to be released.
#[derive(Clone, Copy, Debug, PartialEq, Eq, Structural)]
pub struct AttemptResult {
    pub outcome: AttemptOutcome,
    pub schedule_renewal: bool,
    pub unsubscribe: bool,
}

/// What the caller does next.
#[derive(Clone, Copy, Debug, PartialEq, Eq, Structural)]
pub enum LockAction {
    /// Run the lock script with this lease.
    TryAcquire { lease_ms: u64 },
    /// Subscribe to the lock's channel.
    Subscribe,
    /// Wait for a release notice, at most `wake_after_ms`; give up after
    /// `give_up_after_ms` (answered by `TimedOut`); stop on cancellation if
    /// `cancellable` (answered by `Cancelled`).
    Wait { wake_after_ms: u64, give_up_after_ms: Option<u64>, cancellable: bool },
    /// The attempt is over.
    Finish(AttemptResult),
}

/// One attempt to take a lock, as a state machine: the caller performs each
/// action and hands back what it observed.
#[derive(Clone, Copy, Debug, PartialEq, Eq, Structural)]
pub struct LockAttempt {
    pub lease_ms: u64,
    pub watchdog: bool,
    pub mode: LockMode,
    pub phase: AttemptPhase,
    pub subscribed: bool,
}

pub open spec fn is_cancellable(mode: LockMode) -> bool {
    match mode {
        LockMode::Blocking { interruptible } => interruptible,
        _ => false,
    }
}

/// The attempt's invariant: it is subscribed exactly between a successful
/// subscription and its end, a blocking attempt keeps no deadline, a timed
/// one does, and a one-shot attempt never subscribes.
pub open spec fn attempt_inv(a: LockAttempt) -> bool {
    &&& (match a.phase {
        AttemptPhase::Ready | AttemptPhase::FirstTry | AttemptPhase::Subscribing => !a.subscribed,
        AttemptPhase::Retrying { .. } | AttemptPhase::Waiting => a.subscribed,
        AttemptPhase::Finished => true,
    })
    &&& (a.phase matches AttemptPhase::Retrying { remaining_ms } ==> (match a.mode {
        LockMode::Blocking { .. } => remaining_ms is None,
        LockMode::Timed { wait_ms } => remaining_ms matches Some(r) && 0 < r <= wait_ms,
        LockMode::Immediate => false,
    }))
    &&& (a.mode is Immediate ==> !a.subscribed && !(a.phase is Subscribing) && !(a.phase is Waiting))
}

/// Whether the attempt takes `e` now. The wake-up time `ttl + 100` must fit
/// in `u64` where it is computed.
pub open spec fn accepts(a: LockAttempt, e: LockEvent) -> bool {
    &&& match a.phase {
        AttemptPhase::Ready => e is Start,
        AttemptPhase::FirstTry | AttemptPhase::Retrying { .. } => e is Replied || e is CommandFailed,
        AttemptPhase::Subscribing => e is Subscribed || e is SubscribeFailed,
        AttemptPhase::Waiting => e is Woken || (e is TimedOut && a.mode is Timed)
            || (e is Cancelled && is_cancellable(a.mode)),
        AttemptPhase::Finished => false,
    }
    &&& (a.phase is Retrying ==> (e matches LockEvent::Replied { ttl_ms: Some(t), .. } ==> t + 100 <= u64::MAX))
}

/// Ends the attempt with `outcome`.
pub open spec fn finish_spec(a: LockAttempt, outcome: AttemptOutcome) -> (LockAttempt, LockAction) {
    (LockAttempt { phase: AttemptPhase::Finished, ..a }, LockAction::Finish(AttemptResult {
        outcome,
        schedule_renewal: outcome == AttemptOutcome::Acquired && a.watchdog,
        unsubscribe: a.subscribed,
    }))
}

/// At the top of the wait loop: a timed attempt whose time is up gives up;
/// otherwise the lock is tried again.
pub open spec fn retry_spec(a: LockAttempt, elapsed_ms: u64) -> (LockAttempt, LockAction) {
    match a.mode {
        LockMode::Timed { wait_ms } => if elapsed_ms >= wait_ms {
            finish_spec(a, AttemptOutcome::NotAcquired)
        } else {
            (LockAttempt { phase: AttemptPhase::Retrying { remaining_ms: Some((wait_ms - elapsed_ms) as u64) }, ..a },
             LockAction::TryAcquire { lease_ms: a.lease_ms })
        },
        _ => (LockAttempt { phase: AttemptPhase::Retrying { remaining_ms: None }, ..a },
              LockAction::TryAcquire { lease_ms: a.lease_ms }),
    }
}

/// The wait after a refused retry: until the lease may have run out
/// (`ttl + 100` ms), and never past the time left of a timed attempt.
pub open spec fn wait_spec(a: LockAttempt, remaining_ms: Option<u64>, ttl_ms: u64) -> (LockAttempt, LockAction) {
    let lease_wait = ttl_ms + 100;
    (LockAttempt { phase: AttemptPhase::Waiting, ..a }, LockAction::Wait {
        wake_after_ms: match remaining_ms {
            Some(r) => if r <= lease_wait { r } else { lease_wait as u64 },
            None => lease_wait as u64,
        },
        give_up_after_ms: remaining_ms,
        cancellable: is_cancellable(a.mode),
    })
}

/// The attempt's transition on `e`.
pub open spec fn step_spec(a: LockAttempt, e: LockEvent) -> (LockAttempt, LockAction) {
    match (a.phase, e) {
        (AttemptPhase::Ready, LockEvent::Start) =>
            (LockAttempt { phase: AttemptPhase::FirstTry, ..a }, LockAction::TryAcquire { lease_ms: a.lease_ms }),
        (AttemptPhase::FirstTry, LockEvent::Replied { ttl_ms: None, .. }) =>
            finish_spec(a, AttemptOutcome::Acquired),
        (AttemptPhase::FirstTry, LockEvent::Replied { ttl_ms: Some(_), elapsed_ms }) => match a.mode {
            LockMode::Immediate => finish_spec(a, AttemptOutcome::NotAcquired),
            LockMode::Timed { wait_ms } => if elapsed_ms >= wait_ms {
                finish_spec(a, AttemptOutcome::NotAcquired)
            } else {
                (LockAttempt { phase: AttemptPhase::Subscribing, ..a }, LockAction::Subscribe)
            },
            LockMode::Blocking { .. } =>
                (LockAttempt { phase: AttemptPhase::Subscribing, ..a }, LockAction::Subscribe),
        },
        (AttemptPhase::Subscribing, LockEvent::Subscribed { elapsed_ms }) =>
            retry_spec(LockAttempt { subscribed: true, ..a }, elapsed_ms),
        (AttemptPhase::Subscribing, LockEvent::SubscribeFailed) =>
            finish_spec(a, AttemptOutcome::SubscribeFailed),
        (AttemptPhase::Retrying { .. }, LockEvent::Replied { ttl_ms: None, .. }) =>
            finish_spec(a, AttemptOutcome::Acquired),
        (AttemptPhase::Retrying { remaining_ms }, LockEvent::Replied { ttl_ms: Some(t), .. }) =>
            wait_spec(a, remaining_ms, t),
        (_, LockEvent::CommandFailed) => finish_spec(a, AttemptOutcome::CommandFailed),
        (AttemptPhase::Waiting, LockEvent::Woken { elapsed_ms }) => retry_spec(a, elapsed_ms),
        (AttemptPhase::Waiting, LockEvent::TimedOut) => finish_spec(a, AttemptOutcome::NotAcquired),
        (AttemptPhase::Waiting, LockEvent::Cancelled) => finish_spec(a, AttemptOutcome::Interrupted),
        _ => (a, LockAction::Finish(AttemptResult {
            outcome: AttemptOutcome::NotAcquired,
            schedule_renewal: false,
            unsubscribe: false,
        })),
    }
}

impl LockAttempt {
    /// A new attempt, not started.
    pub open spec fn new_spec(lease_ms: u64, watchdog: bool, mode: LockMode) -> LockAttempt {
        LockAttempt { lease_ms, watchdog, mode, phase: AttemptPhase::Ready, subscribed: false }
    }

    /// A new attempt.
    pub fn new(lease_ms: u64, watchdog: bool, mode: LockMode) -> (a: Self)
        ensures
            a == Self::new_spec(lease_ms, watchdog, mode),
            attempt_inv(a),
    {
        LockAttempt { lease_ms, watchdog, mode, phase: AttemptPhase::Ready, subscribed: false }
    }

    fn finish(&mut self, outcome: AttemptOutcome) -> (act: LockAction)
        ensures
            (*final(self), act) == finish_spec(*old(self), outcome),
    {
        let r = AttemptResult {
            outcome,
            schedule_renewal: (match outcome { AttemptOutcome::Acquired => true, _ => false }) && self.watchdog,
            unsubscribe: self.subscribed,
        };
        self.phase = AttemptPhase::Finished;
        LockAction::Finish(r)
    }

    fn retry(&mut self, elapsed_ms: u64) -> (act: LockAction)
        ensures
            (*final(self), act) == retry_spec(*old(self), elapsed_ms),
    {
        match self.mode {
            LockMode::Timed { wait_ms } => {
                if elapsed_ms >= wait_ms {
                    self.finish(AttemptOutcome::NotAcquired)
                } else {
                    self.phase = AttemptPhase::Retrying { remaining_ms: Some(wait_ms - elapsed_ms) };
                    LockAction::TryAcquire { lease_ms: self.lease_ms }
                }
            },
            _ => {
                self.phase = AttemptPhase::Retrying { remaining_ms: None };
                LockAction::TryAcquire { lease_ms: self.lease_ms }
            },
        }
    }

    /// Takes event `e` and says what to do next.
    pub fn step(&mut self, e: LockEvent) -> (act: LockAction)
        requires
            accepts(*old(self), e),
        ensures
            (*final(self), act) == step_spec(*old(self), e),
    {
        match (self.phase, e) {
            (AttemptPhase::Ready, LockEvent::Start) => {
                self.phase = AttemptPhase::FirstTry;
                LockAction::TryAcquire { lease_ms: self.lease_ms }
            },
            (AttemptPhase::FirstTry, LockEvent::Replied { ttl_ms: None, .. }) => self.finish(AttemptOutcome::Acquired),
            (AttemptPhase::FirstTry, LockEvent::Replied { ttl_ms: Some(_), elapsed_ms }) => match self.mode {
                LockMode::Immediate => self.finish(AttemptOutcome::NotAcquired),
                LockMode::Timed { wait_ms } => {
                    if elapsed_ms >= wait_ms {
                        self.finish(AttemptOutcome::NotAcquired)
                    } else {
                        self.phase = AttemptPhase::Subscribing;
                        LockAction::Subscribe
                    }
                },
                LockMode::Blocking { .. } => {
                    self.phase = AttemptPhase::Subscribing;
                    LockAction::Subscribe
                },
            },
            (AttemptPhase::Subscribing, LockEvent::Subscribed { elapsed_ms }) => {
                self.subscribed = true;
                self.retry(elapsed_ms)
            },
            (AttemptPhase::Subscribing, LockEvent::SubscribeFailed) => self.finish(AttemptOutcome::SubscribeFailed),
            (AttemptPhase::Retrying { .. }, LockEvent::Replied { ttl_ms: None, .. }) => self.finish(AttemptOutcome::Acquired),
            (AttemptPhase::Retrying { remaining_ms }, LockEvent::Replied { ttl_ms: Some(t), .. }) => {
                let lease_wait: u64 = t + 100;
                let wake: u64 = match remaining_ms {
                    Some(r) => if r <= lease_wait { r } else { lease_wait },
                    None => lease_wait,
                };
                let cancellable = match self.mode {
                    LockMode::Blocking { interruptible } => interruptible,
                    _ => false,
                };
                self.phase = AttemptPhase::Waiting;
                LockAction::Wait { wake_after_ms: wake, give_up_after_ms: remaining_ms, cancellable }
            },
            (_, LockEvent::CommandFailed) => self.finish(AttemptOutcome::CommandFailed),
            (AttemptPhase::Waiting, LockEvent::Woken { elapsed_ms }) => self.retry(elapsed_ms),
            (AttemptPhase::Waiting, LockEvent::TimedOut) => self.finish(AttemptOutcome::NotAcquired),
            (AttemptPhase::Waiting, LockEvent::Cancelled) => self.finish(AttemptOutcome::Interrupted),
            _ => {
                proof {
                    assert(false);
                }
                LockAction::Finish(AttemptResult {
                    outcome: AttemptOutcome::NotAcquired,
                    schedule_renewal: false,
                    unsubscribe: false,
                })
            },
        }
    }

    /// Whether the attempt takes event `e` now.
    pub fn accepts_event(&self, e: LockEvent) -> (b: bool)
        ensures
            b == accepts(*self, e),
    {
        let phase_ok = match (self.phase, e) {
            (AttemptPhase::Ready, LockEvent::Start) => true,
            (AttemptPhase::FirstTry, LockEvent::Replied { .. }) => true,
            (AttemptPhase::FirstTry, LockEvent::CommandFailed) => true,
            (AttemptPhase::Retrying { .. }, LockEvent::Replied { .. }) => true,
            (AttemptPhase::Retrying { .. }, LockEvent::CommandFailed) => true,
            (AttemptPhase::Subscribing, LockEvent::Subscribed { .. }) => true,
            (AttemptPhase::Subscribing, LockEvent::SubscribeFailed) => true,
            (AttemptPhase::Waiting, LockEvent::Woken { .. }) => true,
            (AttemptPhase::Waiting, LockEvent::TimedOut) => match self.mode {
                LockMode::Timed { .. } => true,
                _ => false,
            },
            (AttemptPhase::Waiting, LockEvent::Cancelled) => match self.mode {
                LockMode::Blocking { interruptible } => interruptible,
                _ => false,
            },
            _ => false,
        };
        let ttl_ok = match (self.phase, e) {
            (AttemptPhase::Retrying { .. }, LockEvent::Replied { ttl_ms: Some(t), .. }) => t <= u64::MAX - 100,
            _ => true,
        };
        phase_ok && ttl_ok
    }

    /// Whether the attempt is over.
    pub fn is_finished(&self) -> (b: bool)
        ensures
            b == (self.phase is Finished),
    {
        match self.phase {
            AttemptPhase::Finished => true,
            _ => false,
        }
    }
}

/// The step keeps the attempt's invariant.
pub proof fn lemma_step_keeps_inv(a: LockAttempt, e: LockEvent)
    requires
        attempt_inv(a),
        accepts(a, e),
    ensures
        attempt_inv(step_spec(a, e).0),
{
}

/// An attempt that ends releases its channel subscription exactly when it
/// holds one (taken earlier, or by the event that ends it): every
/// subscription is given back, and no attempt releases one that it never
/// took.
pub proof fn lemma_finish_releases_subscription(a: LockAttempt, e: LockEvent)
    requires
        attempt_inv(a),
        accepts(a, e),
    ensures
        step_spec(a, e).1 matches LockAction::Finish(r) ==> r.unsubscribe == (a.subscribed || e is Subscribed),
        step_spec(a, e).1 matches LockAction::Finish(r) ==>
            (r.unsubscribe <==> (a.phase is Retrying || a.phase is Waiting || e is Subscribed)),
        !(step_spec(a, e).1 is Finish) ==> (step_spec(a, e).0.subscribed <==> (a.subscribed || e is Subscribed)),
{
}

/// The watchdog is asked to renew the lock only when the attempt took it,
/// and then exactly when the attempt runs with the watchdog.
pub proof fn lemma_renewal_only_when_acquired(a: LockAttempt, e: LockEvent)
    requires
        accepts(a, e),
    ensures
        step_spec(a, e).1 matches LockAction::Finish(r) ==>
            (r.schedule_renewal <==> (r.outcome == AttemptOutcome::Acquired && a.watchdog)),
{
}

/// A timed attempt never waits past its deadline: it gives up after the
/// time left, which is positive and within the whole wait, and wakes no
/// later than that.
pub proof fn lemma_timed_wait_bounded(a: LockAttempt, e: LockEvent, wait_ms: u64)
    requires
        attempt_inv(a),
        accepts(a, e),
        a.mode == (LockMode::Timed { wait_ms }),
    ensures
        step_spec(a, e).1 matches LockAction::Wait { wake_after_ms, give_up_after_ms, cancellable } ==>
            give_up_after_ms matches Some(r) && 0 < r <= wait_ms && wake_after_ms <= r && !cancellable,
{
}

/// A blocking attempt ends only by taking the lock or by a failure of
/// Redis; an uninterruptible one is never interrupted.
pub proof fn lemma_blocking_never_gives_up(a: LockAttempt, e: LockEvent, interruptible: bool)
    requires
        attempt_inv(a),
        accepts(a, e),
        a.mode == (LockMode::Blocking { interruptible }),
    ensures
        step_spec(a, e).1 matches LockAction::Finish(r) ==> r.outcome != AttemptOutcome::NotAcquired,
        step_spec(a, e).1 matches LockAction::Finish(r) ==>
            (r.outcome == AttemptOutcome::Interrupted ==> interruptible),
{
}

/// A one-shot attempt never subscribes nor waits: after its single try it
/// is over.
pub proof fn lemma_immediate_tries_once(a: LockAttempt, e: LockEvent)
    requires
        attempt_inv(a),
        accepts(a, e),
        a.mode == LockMode::Immediate,
    ensures
        !(step_spec(a, e).1 is Subscribe),
        !(step_spec(a, e).1 is Wait),
        a.phase is FirstTry ==> step_spec(a, e).1 is Finish,
{
}

/// A finished attempt takes no more events.
pub proof fn lemma_finished_is_final(a: LockAttempt, e: LockEvent)
    requires
        a.phase is Finished,
    ensures
        !accepts(a, e),
{
}

/// A first try answered with nil takes the lock at once, without any
/// subscription.
pub proof fn lemma_first_try_success(a: LockAttempt, elapsed_ms: u64)
    requires
        a.phase is FirstTry,
        !a.subscribed,
    ensures
        step_spec(a, LockEvent::Replied { ttl_ms: None, elapsed_ms }).1 == LockAction::Finish(AttemptResult {
            outcome: AttemptOutcome::Acquired,
            schedule_renewal: a.watchdog,
            unsubscribe: false,
        }),
{
}

/// The reply of the lock script as the caller decodes it.
pub open spec fn decoded_reply(reply: Option<int>) -> Option<u64> {
    match reply {
        Some(t) => Some(t as u64),
        None => None,
    }
}

/// An attempt that hands the lock script's reply to its step reports the
/// lock taken exactly when the script granted it: when the lock was free or
/// already held by this holder.
pub proof fn lemma_acquired_iff_granted(a: LockAttempt, s: RedisLockState, owner: Seq<char>, elapsed_ms: u64)
    requires
        attempt_inv(a),
        lock_state_inv(s),
        a.phase is FirstTry || a.phase is Retrying,
        s.ttl_ms + 100 <= u64::MAX,
        0 <= s.ttl_ms,
    ensures
        ({
            let e = LockEvent::Replied { ttl_ms: decoded_reply(lock_script(s, owner, a.lease_ms as int).1), elapsed_ms };
            &&& accepts(a, e)
            &&& (step_spec(a, e).1 matches LockAction::Finish(r) && r.outcome == AttemptOutcome::Acquired)
                <==> (is_free(s) || s.holders.contains_key(owner))
        }),
{
}

/// Every try of an attempt uses the attempt's own lease, and no step
/// changes the lease, the watchdog choice or the waiting mode.
pub proof fn lemma_lease_carried(a: LockAttempt, e: LockEvent)
    requires
        accepts(a, e),
    ensures
        step_spec(a, e).1 matches LockAction::TryAcquire { lease_ms } ==> lease_ms == a.lease_ms,
        step_spec(a, e).0.lease_ms == a.lease_ms,
        step_spec(a, e).0.watchdog == a.watchdog,
        step_spec(a, e).0.mode == a.mode,
{
}

/// A timed attempt keeps to its deadline, `wait_ms` after it began: at the
/// top of the wait loop (after subscribing or waking) with `elapsed_ms`
/// gone, it gives up once `elapsed_ms >= wait_ms`, and otherwise tries
/// again with exactly `wait_ms - elapsed_ms` left; a refused retry waits
/// no longer than that time left and gives up when it has passed; after a
/// refused first try it gives up at once past the deadline.
pub proof fn lemma_timed_deadline(a: LockAttempt, e: LockEvent, wait_ms: u64)
    requires
        attempt_inv(a),
        accepts(a, e),
        a.mode == (LockMode::Timed { wait_ms }),
    ensures
        a.phase is Waiting ==> (e matches LockEvent::Woken { elapsed_ms } ==> (
            (elapsed_ms >= wait_ms ==> step_spec(a, e).1 == LockAction::Finish(AttemptResult {
                outcome: AttemptOutcome::NotAcquired,
                schedule_renewal: false,
                unsubscribe: true,
            }))
            && (elapsed_ms < wait_ms ==> step_spec(a, e).0.phase == (AttemptPhase::Retrying {
                remaining_ms: Some((wait_ms - elapsed_ms) as u64),
            }) && step_spec(a, e).1 == (LockAction::TryAcquire { lease_ms: a.lease_ms })))),
        a.phase is Subscribing ==> (e matches LockEvent::Subscribed { elapsed_ms } ==> (
            (elapsed_ms >= wait_ms ==> step_spec(a, e).1 == LockAction::Finish(AttemptResult {
                outcome: AttemptOutcome::NotAcquired,
                schedule_renewal: false,
                unsubscribe: true,
            }))
            && (elapsed_ms < wait_ms ==> step_spec(a, e).0.phase == (AttemptPhase::Retrying {
                remaining_ms: Some((wait_ms - elapsed_ms) as u64),
            }) && step_spec(a, e).1 == (LockAction::TryAcquire { lease_ms: a.lease_ms })))),
        a.phase matches AttemptPhase::Retrying { remaining_ms: Some(r) } ==> (
            e matches LockEvent::Replied { ttl_ms: Some(t), .. } ==> step_spec(a, e).1 == (LockAction::Wait {
                wake_after_ms: if r <= t + 100 { r } else { (t + 100) as u64 },
                give_up_after_ms: Some(r),
                cancellable: false,
            })),
        a.phase is Waiting ==> (e is TimedOut ==> step_spec(a, e).1 == LockAction::Finish(AttemptResult {
            outcome: AttemptOutcome::NotAcquired,
            schedule_renewal: false,
            unsubscribe: true,
        })),
        a.phase is FirstTry ==> (e matches LockEvent::Replied { ttl_ms: Some(_), elapsed_ms } ==> (
            (elapsed_ms >= wait_ms ==> step_spec(a, e).1 == LockAction::Finish(AttemptResult {
                outcome: AttemptOutcome::NotAcquired,
                schedule_renewal: false,
                unsubscribe: false,
            }))
            && (elapsed_ms < wait_ms ==> step_spec(a, e).1 == LockAction::Subscribe))),
{
}

/// A blocking attempt waits for the lease to run out (`ttl + 100` ms) or a
/// release notice, with no deadline, cancellable exactly when it is
/// interruptible; every wake-up and every subscription leads to another
/// try; a nil reply at any try takes the lock.
pub proof fn lemma_blocking_waits(a: LockAttempt, e: LockEvent, interruptible: bool)
    requires
        attempt_inv(a),
        accepts(a, e),
        a.mode == (LockMode::Blocking { interruptible }),
    ensures
        a.phase is Retrying ==> (e matches LockEvent::Replied { ttl_ms: Some(t), .. } ==> step_spec(a, e).1 == (LockAction::Wait {
            wake_after_ms: (t + 100) as u64,
            give_up_after_ms: None,
            cancellable: interruptible,
        })),
        a.phase is Waiting && e is Woken ==> step_spec(a, e).1 == (LockAction::TryAcquire { lease_ms: a.lease_ms }),
        a.phase is Subscribing && e is Subscribed ==> step_spec(a, e).1 == (LockAction::TryAcquire { lease_ms: a.lease_ms })
            && step_spec(a, e).0.subscribed,
        a.phase is FirstTry && e is Replied && !(e->ttl_ms is None) ==> step_spec(a, e).1 == LockAction::Subscribe,
{
}

/// A nil reply of the lock script, at the first try or any retry, takes
/// the lock: the attempt ends acquired, asks for renewal exactly when it
/// runs with the watchdog, and gives back the subscription it holds.
pub proof fn lemma_nil_reply_acquires(a: LockAttempt, elapsed_ms: u64)
    requires
        attempt_inv(a),
        a.phase is FirstTry || a.phase is Retrying,
    ensures
        step_spec(a, LockEvent::Replied { ttl_ms: None, elapsed_ms }).1 == LockAction::Finish(AttemptResult {
            outcome: AttemptOutcome::Acquired,
            schedule_renewal: a.watchdog,
            unsubscribe: a.phase is Retrying,
        }),
        step_spec(a, LockEvent::Replied { ttl_ms: None, elapsed_ms }).0.phase is Finished,
{
}

/// Progress: an unfinished attempt takes every event that the caller can
/// observe in its phase: the start; any reply of the lock script or its
/// failure (a retry's TTL only when `ttl + 100` fits in `u64`); the
/// subscription or its failure; a wake-up, and the give-up or cancellation
/// where the mode allows them.
pub proof fn lemma_progress(a: LockAttempt, ttl_ms: Option<u64>, elapsed_ms: u64)
    requires
        attempt_inv(a),
    ensures
        a.phase is Ready ==> accepts(a, LockEvent::Start),
        a.phase is FirstTry ==> accepts(a, LockEvent::Replied { ttl_ms, elapsed_ms })
            && accepts(a, LockEvent::CommandFailed),
        a.phase is Retrying ==> accepts(a, LockEvent::CommandFailed),
        a.phase is Retrying && (ttl_ms matches Some(t) ==> t + 100 <= u64::MAX)
            ==> accepts(a, LockEvent::Replied { ttl_ms, elapsed_ms }),
        a.phase is Subscribing ==> accepts(a, LockEvent::Subscribed { elapsed_ms })
            && accepts(a, LockEvent::SubscribeFailed),
        a.phase is Waiting ==> accepts(a, LockEvent::Woken { elapsed_ms }),
        a.phase is Waiting && a.mode is Timed ==> accepts(a, LockEvent::TimedOut),
        a.phase is Waiting && a.mode == (LockMode::Blocking { interruptible: true })
            ==> accepts(a, LockEvent::Cancelled),
{
}

impl RedissonLock {
    /// `lock`: waits until taken, with the watchdog lease renewed.
    pub fn lock_attempt(&self) -> (a: LockAttempt)
        ensures
            a == LockAttempt::new_spec(self.lease_spec(), true, LockMode::Blocking { interruptible: false }),
    {
        LockAttempt::new(self.internal_lock_lease_time(), true, LockMode::Blocking { interruptible: false })
    }

    /// `lock_with_lease`: waits until taken, for a fixed lease, without the watchdog.
    pub fn lock_with_lease_attempt(&self, lease_ms: u64) -> (a: LockAttempt)
        ensures
            a == LockAttempt::new_spec(lease_ms, false, LockMode::Blocking { interruptible: false }),
    {
        LockAttempt::new(lease_ms, false, LockMode::Blocking { interruptible: false })
    }

    /// `lock_interruptibly`: like `lock`, but may be cancelled while waiting.
    pub fn lock_interruptibly_attempt(&self) -> (a: LockAttempt)
        ensures
            a == LockAttempt::new_spec(self.lease_spec(), true, LockMode::Blocking { interruptible: true }),
    {
        LockAttempt::new(self.internal_lock_lease_time(), true, LockMode::Blocking { interruptible: true })
    }

    /// `try_lock`: one try, with the watchdog lease renewed if taken.
    pub fn try_lock_attempt(&self) -> (a: LockAttempt)
        ensures
            a == LockAttempt::new_spec(self.lease_spec(), true, LockMode::Immediate),
    {
        LockAttempt::new(self.internal_lock_lease_time(), true, LockMode::Immediate)
    }

    /// `try_lock_with_timeout`: waits at most `wait_ms`; a given lease is
    /// fixed, otherwise the watchdog lease is used and renewed.
    pub fn try_lock_with_timeout_attempt(&self, wait_ms: u64, lease_ms: Option<u64>) -> (a: LockAttempt)
        ensures
            a == LockAttempt::new_spec(
                match lease_ms { Some(l) => l, None => self.lease_spec() },
                lease_ms is None,
                LockMode::Timed { wait_ms },
            ),
    {
        let lease = match lease_ms {
            Some(l) => l,
            None => self.internal_lock_lease_time(),
        };
        LockAttempt::new(lease, lease_ms.is_none(), LockMode::Timed { wait_ms })
    }
}

} // verus!
