use vstd::prelude::*;
use crate::renewal::lock_task::LockTask;
use crate::renewal::renewal_task::RenewalTask;

verus! {

/// The watchdog scheduler: the lease it renews locks for, the executor the
/// renewals go through (set once, after construction), and the lock task,
/// created on first use.
pub struct LockRenewalScheduler<E> {
    pub(crate) internal_lock_lease_time: u64,
    pub(crate) executor: Option<E>,
    pub(crate) reference: Option<LockTask>,
}

impl<E> LockRenewalScheduler<E> {
    pub closed spec fn lease_spec(&self) -> u64 {
        self.internal_lock_lease_time
    }

    pub closed spec fn executor_spec(&self) -> Option<E> {
        self.executor
    }

    pub closed spec fn has_task(&self) -> bool {
        self.reference is Some
    }

    /// The locks being renewed (none before the task exists).
    pub closed spec fn renewed(&self) -> Map<Seq<char>, Seq<char>> {
        match self.reference {
            Some(t) => t.renewed(),
            None => Map::empty(),
        }
    }

    /// Whether the renewal loop is marked as running.
    pub closed spec fn running_spec(&self) -> bool {
        match self.reference {
            Some(t) => t.is_running(),
            None => false,
        }
    }

    /// Whether the task has been shut down.
    pub closed spec fn is_shut_down(&self) -> bool {
        match self.reference {
            Some(t) => t.is_shut_down(),
            None => false,
        }
    }

    pub closed spec fn inv(&self) -> bool {
        match self.reference {
            Some(t) => t.inv(),
            None => true,
        }
    }

    pub fn new(internal_lock_lease_time: u64) -> (s: Self)
        ensures
            s.inv(),
            s.lease_spec() == internal_lock_lease_time,
            s.executor_spec() is None,
            !s.has_task(),
            s.renewed() == Map::<Seq<char>, Seq<char>>::empty(),
            !s.running_spec(),
            !s.is_shut_down(),
    {
        Self { internal_lock_lease_time, executor: None, reference: None }
    }

    /// Sets the executor; only the first one set is kept.
    pub fn set_executor(&mut self, executor: E)
        ensures
            final(self).executor_spec() == (match old(self).executor_spec() {
                Some(e) => Some(e),
                None => Some(executor),
            }),
            final(self).lease_spec() == old(self).lease_spec(),
            final(self).has_task() == old(self).has_task(),
            final(self).renewed() == old(self).renewed(),
            final(self).running_spec() == old(self).running_spec(),
            final(self).is_shut_down() == old(self).is_shut_down(),
            final(self).inv() == old(self).inv(),
    {
        if self.executor.is_none() {
            self.executor = Some(executor);
        }
    }

    /// The executor, once set.
    pub fn executor(&self) -> (e: Option<&E>)
        ensures
            match e {
                Some(r) => self.executor_spec() == Some(*r),
                None => self.executor_spec() is None,
            },
    {
        match &self.executor {
            Some(e) => Some(e),
            None => None,
        }
    }

    pub fn internal_lock_lease_time(&self) -> (ms: u64)
        ensures
            ms == self.lease_spec(),
    {
        self.internal_lock_lease_time
    }

    /// Starts renewing lock `key` for holder `lock_name`, creating the task
    /// on first use. Returns `true` when the caller has to start the renewal
    /// loop now: the lock was new to the task and the loop neither runs nor
    /// was shut down.
    pub fn renew_lock(&mut self, key: String, lock_name: String) -> (start: bool)
        requires
            old(self).inv(),
            old(self).has_task() || old(self).executor_spec() is Some,
        ensures
            final(self).inv(),
            final(self).has_task(),
            final(self).renewed() == (if old(self).renewed().contains_key(key@) {
                old(self).renewed()
            } else {
                old(self).renewed().insert(key@, lock_name@)
            }),
            start == (!old(self).renewed().contains_key(key@) && !old(self).running_spec()
                && !old(self).is_shut_down()),
            final(self).running_spec() == (old(self).running_spec() || start),
            final(self).is_shut_down() == old(self).is_shut_down(),
            final(self).lease_spec() == old(self).lease_spec(),
            final(self).executor_spec() == old(self).executor_spec(),
    {
        if self.reference.is_none() {
            self.reference = Some(LockTask::new(self.internal_lock_lease_time));
        }
        match &mut self.reference {
            Some(t) => {
                let fresh = !t.is_renewing(key.as_str());
                t.add(key, lock_name);
                if fresh {
                    t.try_run()
                } else {
                    false
                }
            },
            None => false,
        }
    }

    /// Stops renewing lock `key`.
    pub fn cancel_lock_renewal(&mut self, key: &str)
        requires
            old(self).inv(),
        ensures
            final(self).inv(),
            final(self).renewed() == old(self).renewed().remove(key@),
            !old(self).has_task() ==> final(self).renewed() == Map::<Seq<char>, Seq<char>>::empty(),
            final(self).has_task() == old(self).has_task(),
            final(self).running_spec() == old(self).running_spec(),
            final(self).is_shut_down() == old(self).is_shut_down(),
            final(self).lease_spec() == old(self).lease_spec(),
            final(self).executor_spec() == old(self).executor_spec(),
    {
        match &mut self.reference {
            Some(t) => t.cancel_expiration_renewal(key),
            None => {
                assert(self.renewed() =~= self.renewed().remove(key@));
            },
        }
    }

    /// Stops the renewal loop, if the task exists.
    pub fn shutdown(&mut self)
        requires
            old(self).inv(),
        ensures
            final(self).inv(),
            final(self).renewed() == old(self).renewed(),
            final(self).has_task() == old(self).has_task(),
            final(self).is_shut_down() == old(self).has_task(),
            !final(self).running_spec(),
            final(self).lease_spec() == old(self).lease_spec(),
            final(self).executor_spec() == old(self).executor_spec(),
    {
        match &mut self.reference {
            Some(t) => t.shutdown(),
            None => {},
        }
    }

    /// Reads the reply of a renewal of lock `key`: a lock whose holder no
    /// longer holds it (reply other than 1) is no longer renewed.
    pub fn apply_renewal_reply(&mut self, key: &str, reply: i64) -> (kept: bool)
        requires
            old(self).inv(),
        ensures
            kept == (reply == 1),
            final(self).inv(),
            final(self).renewed() == (if kept { old(self).renewed() } else { old(self).renewed().remove(key@) }),
            final(self).has_task() == old(self).has_task(),
            final(self).running_spec() == old(self).running_spec(),
            final(self).is_shut_down() == old(self).is_shut_down(),
            final(self).lease_spec() == old(self).lease_spec(),
            final(self).executor_spec() == old(self).executor_spec(),
    {
        if reply == 1 {
            true
        } else {
            self.cancel_lock_renewal(key);
            false
        }
    }

    /// Whether the renewal loop is to keep going.
    pub fn renewal_running(&self) -> (b: bool)
        ensures
            b == self.running_spec(),
    {
        match &self.reference {
            Some(t) => t.running(),
            None => false,
        }
    }

    /// The locks to renew on the next round, as (name, holder) pairs.
    pub fn renewal_snapshot(&self) -> (v: Vec<(String, String)>)
        requires
            self.inv(),
        ensures
            forall|i: int| 0 <= i < v@.len() ==> self.renewed().contains_key((#[trigger] v@[i]).0@)
                && self.renewed()[v@[i].0@] == v@[i].1@,
            forall|k: Seq<char>| self.renewed().contains_key(k) ==> exists|i: int|
                0 <= i < v@.len() && (#[trigger] v@[i]).0@ == k,
            forall|i: int, j: int| 0 <= i < j < v@.len() ==> (#[trigger] v@[i]).0@ != (#[trigger] v@[j]).0@,
    {
        match &self.reference {
            Some(t) => t.snapshot(),
            None => Vec::new(),
        }
    }
}

/// Cancelling the renewal of a lock that was newly scheduled leaves the
/// watchdog's registry as it was before: `cancel_lock_renewal` undoes
/// `renew_lock`.
pub proof fn lemma_cancel_undoes_renew<E>(
    before: LockRenewalScheduler<E>,
    scheduled: LockRenewalScheduler<E>,
    cancelled: LockRenewalScheduler<E>,
    key: Seq<char>,
    lock_name: Seq<char>,
)
    requires
        !before.renewed().contains_key(key),
        scheduled.renewed() == before.renewed().insert(key, lock_name),
        cancelled.renewed() == scheduled.renewed().remove(key),
    ensures
        cancelled.renewed() == before.renewed(),
{
    assert(cancelled.renewed() =~= before.renewed());
}

/// Before its task exists the scheduler renews nothing, runs no loop and
/// is not shut down: cancelling or shutting down then has no effect.
pub proof fn lemma_no_task_no_renewals<E>(s: LockRenewalScheduler<E>)
    requires
        !s.has_task(),
    ensures
        s.renewed() == Map::<Seq<char>, Seq<char>>::empty(),
        !s.running_spec(),
        !s.is_shut_down(),
{
}

} // verus!
