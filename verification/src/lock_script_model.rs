use vstd::prelude::*;
use crate::redisson_lock::{unlock_outcome_spec, LockError, UnlockOutcome};

verus! {

/// What Redis keeps for one lock: the hash at the lock key (holder name to
/// hold count; the key is absent when the hash is empty), the key's time to
/// live, and the latch keys left by unlock requests (latch key to reply).
pub struct RedisLockState {
    pub holders: Map<Seq<char>, int>,
    pub ttl_ms: int,
    pub latches: Map<Seq<char>, int>,
}

/// Whether the lock key is absent.
pub open spec fn is_free(s: RedisLockState) -> bool {
    s.holders.dom() == Set::<Seq<char>>::empty()
}

/// The lock's invariant: every count is positive and at most one holder.
pub open spec fn lock_state_inv(s: RedisLockState) -> bool {
    &&& s.holders.dom().finite()
    &&& forall|o: Seq<char>| #[trigger] s.holders.contains_key(o) ==> s.holders[o] > 0
    &&& forall|a: Seq<char>, b: Seq<char>|
        #[trigger] s.holders.contains_key(a) && #[trigger] s.holders.contains_key(b) ==> a == b
}

/// The holds that `owner` has: `GET_HOLD_COUNT_SCRIPT`'s reply.
pub open spec fn hold_count(s: RedisLockState, owner: Seq<char>) -> int {
    if s.holders.contains_key(owner) { s.holders[owner] } else { 0 }
}

/// `LOCK_SCRIPT` run by `owner` with lease `lease_ms`: the new state and the
/// reply (nil when the lock was taken, else the remaining time to live).
pub open spec fn lock_script(s: RedisLockState, owner: Seq<char>, lease_ms: int) -> (RedisLockState, Option<int>) {
    if is_free(s) || s.holders.contains_key(owner) {
        (RedisLockState {
            holders: s.holders.insert(owner, hold_count(s, owner) + 1),
            ttl_ms: lease_ms,
            latches: s.latches,
        }, None)
    } else {
        (s, Some(s.ttl_ms))
    }
}

/// `UNLOCK_SCRIPT` run by `owner` for a request with latch key `latch`.
pub open spec fn unlock_script(s: RedisLockState, owner: Seq<char>, lease_ms: int, latch: Seq<char>) -> (RedisLockState, Option<int>) {
    if s.latches.contains_key(latch) {
        (s, Some(s.latches[latch]))
    } else if !s.holders.contains_key(owner) {
        (s, None)
    } else if s.holders[owner] - 1 > 0 {
        (RedisLockState {
            holders: s.holders.insert(owner, s.holders[owner] - 1),
            ttl_ms: lease_ms,
            latches: s.latches.insert(latch, 0),
        }, Some(0))
    } else {
        (RedisLockState {
            holders: Map::empty(),
            ttl_ms: s.ttl_ms,
            latches: s.latches.insert(latch, 1),
        }, Some(1))
    }
}

/// `FORCE_UNLOCK_SCRIPT`: deletes the lock; replies 1 when there was one.
pub open spec fn force_unlock_script(s: RedisLockState) -> (RedisLockState, int) {
    if is_free(s) {
        (s, 0)
    } else {
        (RedisLockState { holders: Map::empty(), ttl_ms: s.ttl_ms, latches: s.latches }, 1)
    }
}

/// Every script keeps the lock's invariant.
pub proof fn lemma_scripts_keep_inv(s: RedisLockState, owner: Seq<char>, lease_ms: int, latch: Seq<char>)
    requires
        lock_state_inv(s),
    ensures
        lock_state_inv(lock_script(s, owner, lease_ms).0),
        lock_state_inv(unlock_script(s, owner, lease_ms, latch).0),
        lock_state_inv(force_unlock_script(s).0),
{
    let t = lock_script(s, owner, lease_ms).0;
    if is_free(s) || s.holders.contains_key(owner) {
        assert forall|a: Seq<char>, b: Seq<char>|
            #[trigger] t.holders.contains_key(a) && #[trigger] t.holders.contains_key(b) implies a == b by {
            if a != owner {
                assert(s.holders.contains_key(a));
                assert(!is_free(s));
                if !s.holders.contains_key(owner) {
                    assert(s.holders.dom().contains(a));
                }
            }
            if b != owner {
                assert(s.holders.contains_key(b));
                assert(!is_free(s));
                if !s.holders.contains_key(owner) {
                    assert(s.holders.dom().contains(b));
                }
            }
        }
    }
    let u = unlock_script(s, owner, lease_ms, latch).0;
    assert(Map::<Seq<char>, int>::empty().dom() =~= Set::<Seq<char>>::empty());
}

/// Mutual exclusion: while another owner holds the lock, `owner`'s attempt
/// changes nothing and is answered with the remaining time to live.
pub proof fn lemma_lock_excludes_others(s: RedisLockState, owner: Seq<char>, other: Seq<char>, lease_ms: int)
    requires
        lock_state_inv(s),
        s.holders.contains_key(other),
        other != owner,
    ensures
        lock_script(s, owner, lease_ms) == (s, Some(s.ttl_ms)),
{
    assert(s.holders.dom().contains(other));
    assert(!is_free(s));
    if s.holders.contains_key(owner) {
        assert(false);
    }
}

/// Reentrancy: a free lock, or one held by `owner`, is taken by `owner`,
/// who then holds it once more, with the lease renewed.
pub proof fn lemma_lock_reenters(s: RedisLockState, owner: Seq<char>, lease_ms: int)
    requires
        is_free(s) || s.holders.contains_key(owner),
    ensures
        lock_script(s, owner, lease_ms).1 is None,
        hold_count(lock_script(s, owner, lease_ms).0, owner) == hold_count(s, owner) + 1,
        lock_script(s, owner, lease_ms).0.ttl_ms == lease_ms,
{
}

/// An unlock with a fresh request undoes a successful lock: the holders are
/// back to what they were.
pub proof fn lemma_unlock_undoes_lock(s: RedisLockState, owner: Seq<char>, lease_ms: int, latch: Seq<char>)
    requires
        lock_state_inv(s),
        is_free(s) || s.holders.contains_key(owner),
        !s.latches.contains_key(latch),
    ensures
        unlock_script(lock_script(s, owner, lease_ms).0, owner, lease_ms, latch).0.holders == s.holders,
{
    let t = lock_script(s, owner, lease_ms).0;
    if s.holders.contains_key(owner) {
        assert(t.holders.insert(owner, t.holders[owner] - 1) =~= s.holders);
    } else {
        assert(s.holders =~= Map::<Seq<char>, int>::empty()) by {
            assert(s.holders.dom() =~= Set::<Seq<char>>::empty());
        }
        assert(unlock_script(t, owner, lease_ms, latch).0.holders =~= s.holders);
    }
}

/// An unlock by a task that holds nothing changes nothing and fails with
/// `NotLockedByCurrentThread`; an unlock by a holder succeeds, and frees
/// the lock exactly when it released the last hold.
pub proof fn lemma_unlock_outcome(s: RedisLockState, owner: Seq<char>, lease_ms: int, latch: Seq<char>)
    requires
        lock_state_inv(s),
        !s.latches.contains_key(latch),
    ensures
        ({
            let (t, reply) = unlock_script(s, owner, lease_ms, latch);
            let o = unlock_outcome_spec(match reply { Some(n) => Some(n as i64), None => None });
            &&& !s.holders.contains_key(owner) ==> t == s && o.result_spec() == Err::<(), LockError>(LockError::NotLockedByCurrentThread)
            &&& s.holders.contains_key(owner) ==> o.result_spec() is Ok
            &&& s.holders.contains_key(owner) ==> (o == UnlockOutcome::Released <==> hold_count(s, owner) == 1)
            &&& s.holders.contains_key(owner) ==> (is_free(t) <==> hold_count(s, owner) == 1)
            &&& s.holders.contains_key(owner) ==> hold_count(t, owner) == hold_count(s, owner) - 1
        }),
{
    let (t, reply) = unlock_script(s, owner, lease_ms, latch);
    if s.holders.contains_key(owner) && s.holders[owner] - 1 > 0 {
        assert(t.holders.contains_key(owner));
        assert(!is_free(t)) by {
            assert(t.holders.dom().contains(owner));
        }
    }
    if s.holders.contains_key(owner) && s.holders[owner] - 1 <= 0 {
        assert(t.holders.dom() =~= Set::<Seq<char>>::empty());
    }
}

/// A retried unlock request (same latch key) is answered as the first one
/// was, and changes nothing more.
pub proof fn lemma_unlock_retry_is_idempotent(s: RedisLockState, owner: Seq<char>, lease_ms: int, latch: Seq<char>)
    requires
        s.holders.contains_key(owner),
    ensures
        ({
            let (t, first) = unlock_script(s, owner, lease_ms, latch);
            let (u, second) = unlock_script(t, owner, lease_ms, latch);
            u == t && second == first
        }),
{
}

/// Force-unlock frees the lock and replies 1 exactly when it was held.
pub proof fn lemma_force_unlock_frees(s: RedisLockState)
    ensures
        is_free(force_unlock_script(s).0),
        (force_unlock_script(s).1 == 1) <==> !is_free(s),
{
    assert(Map::<Seq<char>, int>::empty().dom() =~= Set::<Seq<char>>::empty());
}

/// The state after `owner` runs the lock script `n` times.
pub open spec fn lock_times(s: RedisLockState, owner: Seq<char>, lease_ms: int, n: nat) -> RedisLockState
    decreases n,
{
    if n == 0 {
        s
    } else {
        lock_script(lock_times(s, owner, lease_ms, (n - 1) as nat), owner, lease_ms).0
    }
}

/// The state after `owner` runs the unlock script once per latch key, in
/// order.
pub open spec fn unlock_all(s: RedisLockState, owner: Seq<char>, lease_ms: int, latches: Seq<Seq<char>>) -> RedisLockState
    decreases latches.len(),
{
    if latches.len() == 0 {
        s
    } else {
        unlock_script(unlock_all(s, owner, lease_ms, latches.drop_last()), owner, lease_ms, latches.last()).0
    }
}

/// The reply of the `i`-th unlock of `unlock_all`.
pub open spec fn unlock_reply_at(s: RedisLockState, owner: Seq<char>, lease_ms: int, latches: Seq<Seq<char>>, i: int) -> Option<int> {
    unlock_script(unlock_all(s, owner, lease_ms, latches.take(i)), owner, lease_ms, latches[i]).1
}

/// Latch keys that are all different and none of them in use yet: one per
/// unlock request.
pub open spec fn fresh_latches(s: RedisLockState, latches: Seq<Seq<char>>) -> bool {
    &&& forall|i: int, j: int| 0 <= i < j < latches.len() ==> latches[i] != latches[j]
    &&& forall|i: int| 0 <= i < latches.len() ==> !s.latches.contains_key(#[trigger] latches[i])
}

/// Locking `n` times from a free lock, or one that `owner` holds, adds `n`
/// holds, leaves `owner` the only holder and keeps the invariant.
pub proof fn lemma_lock_times(s: RedisLockState, owner: Seq<char>, lease_ms: int, n: nat)
    requires
        lock_state_inv(s),
        is_free(s) || s.holders.contains_key(owner),
    ensures
        lock_state_inv(lock_times(s, owner, lease_ms, n)),
        hold_count(lock_times(s, owner, lease_ms, n), owner) == hold_count(s, owner) + n,
        n > 0 ==> lock_times(s, owner, lease_ms, n).holders.contains_key(owner),
        n == 0 ==> lock_times(s, owner, lease_ms, n) == s,
        lock_times(s, owner, lease_ms, n).latches == s.latches,
    decreases n,
{
    if n > 0 {
        let p = lock_times(s, owner, lease_ms, (n - 1) as nat);
        lemma_lock_times(s, owner, lease_ms, (n - 1) as nat);
        assert(is_free(p) || p.holders.contains_key(owner));
        lemma_lock_reenters(p, owner, lease_ms);
        lemma_scripts_keep_inv(p, owner, lease_ms, Seq::empty());
    }
}

/// Unlocking once per fresh latch key, while `owner` holds at least that
/// many holds, succeeds every time and removes one hold each time; the lock
/// is freed exactly when the last hold goes.
pub proof fn lemma_unlock_all(s: RedisLockState, owner: Seq<char>, lease_ms: int, latches: Seq<Seq<char>>)
    requires
        lock_state_inv(s),
        hold_count(s, owner) >= latches.len(),
        fresh_latches(s, latches),
    ensures
        lock_state_inv(unlock_all(s, owner, lease_ms, latches)),
        hold_count(unlock_all(s, owner, lease_ms, latches), owner) == hold_count(s, owner) - latches.len(),
        latches.len() > 0 ==> (is_free(unlock_all(s, owner, lease_ms, latches)) <==> hold_count(s, owner) == latches.len()),
        forall|k: Seq<char>| !s.latches.contains_key(k) && !latches.contains(k)
            ==> !(#[trigger] unlock_all(s, owner, lease_ms, latches).latches.contains_key(k)),
        forall|i: int| 0 <= i < latches.len() ==> (#[trigger] unlock_reply_at(s, owner, lease_ms, latches, i)) is Some,
    decreases latches.len(),
{
    if latches.len() > 0 {
        let prev = latches.drop_last();
        let last = latches.last();
        assert(fresh_latches(s, prev)) by {
            assert forall|i: int| 0 <= i < prev.len() implies !s.latches.contains_key(#[trigger] prev[i]) by {
                assert(prev[i] == latches[i]);
            }
        }
        lemma_unlock_all(s, owner, lease_ms, prev);
        let p = unlock_all(s, owner, lease_ms, prev);
        assert(!prev.contains(last)) by {
            if prev.contains(last) {
                let j = choose|j: int| 0 <= j < prev.len() && prev[j] == last;
                assert(latches[j] == latches[latches.len() - 1]);
            }
        }
        assert(!s.latches.contains_key(last)) by {
            assert(latches[latches.len() - 1] == last);
        }
        assert(!p.latches.contains_key(last));
        assert(p.holders.contains_key(owner));
        lemma_unlock_outcome(p, owner, lease_ms, last);
        lemma_scripts_keep_inv(p, owner, lease_ms, last);
        let t = unlock_all(s, owner, lease_ms, latches);
        assert forall|k: Seq<char>| !s.latches.contains_key(k) && !latches.contains(k)
            implies !(#[trigger] t.latches.contains_key(k)) by {
            if prev.contains(k) {
                let j = choose|j: int| 0 <= j < prev.len() && prev[j] == k;
                assert(latches[j] == k);
            }
            assert(k != last) by {
                assert(latches[latches.len() - 1] == last);
            }
        }
        assert forall|i: int| 0 <= i < latches.len() implies (#[trigger] unlock_reply_at(s, owner, lease_ms, latches, i)) is Some by {
            if i < latches.len() - 1 {
                assert(latches.take(i) == prev.take(i));
                assert(latches[i] == prev[i]);
                assert(unlock_reply_at(s, owner, lease_ms, prev, i) is Some);
            } else {
                assert(latches.take(i) == prev);
            }
        }
    }
}

/// `n` locks are undone by `n` unlocks: from a free lock, `owner` locks `n`
/// times; each of the next `n` unlocks (each a fresh request) succeeds; after
/// the last the lock is free again, as before the first lock; one more
/// unlock fails with `NotLockedByCurrentThread`.
pub proof fn lemma_n_locks_n_unlocks(s: RedisLockState, owner: Seq<char>, lease_ms: int, n: nat, latches: Seq<Seq<char>>)
    requires
        lock_state_inv(s),
        is_free(s),
        n >= 1,
        latches.len() == n + 1,
        fresh_latches(s, latches),
    ensures
        ({
            let held = lock_times(s, owner, lease_ms, n);
            let released = unlock_all(held, owner, lease_ms, latches.take(n as int));
            &&& hold_count(held, owner) == n
            &&& forall|i: int| 0 <= i < n ==>
                unlock_outcome_spec(match #[trigger] unlock_reply_at(held, owner, lease_ms, latches.take(n as int), i) {
                    Some(r) => Some(r as i64),
                    None => None,
                }).result_spec() is Ok
            &&& is_free(released)
            &&& released.holders == s.holders
            &&& unlock_script(released, owner, lease_ms, latches[n as int]).1 is None
            &&& unlock_outcome_spec(None).result_spec() == Err::<(), LockError>(LockError::NotLockedByCurrentThread)
        }),
{
    let held = lock_times(s, owner, lease_ms, n);
    let ul = latches.take(n as int);
    assert(hold_count(s, owner) == 0) by {
        assert(!s.holders.dom().contains(owner));
    }
    lemma_lock_times(s, owner, lease_ms, n);
    assert(fresh_latches(held, ul)) by {
        assert forall|i: int| 0 <= i < ul.len() implies !held.latches.contains_key(#[trigger] ul[i]) by {
            assert(ul[i] == latches[i]);
        }
    }
    lemma_unlock_all(held, owner, lease_ms, ul);
    let released = unlock_all(held, owner, lease_ms, ul);
    assert forall|i: int| 0 <= i < n implies
        unlock_outcome_spec(match #[trigger] unlock_reply_at(held, owner, lease_ms, ul, i) {
            Some(r) => Some(r as i64),
            None => None,
        }).result_spec() is Ok by {
        assert(unlock_reply_at(held, owner, lease_ms, ul, i) is Some);
    }
    assert(released.holders =~= s.holders) by {
        assert(released.holders.dom() =~= Set::<Seq<char>>::empty());
        assert(s.holders.dom() =~= Set::<Seq<char>>::empty());
    }
    let last = latches[n as int];
    assert(!ul.contains(last)) by {
        if ul.contains(last) {
            let j = choose|j: int| 0 <= j < ul.len() && ul[j] == last;
            assert(latches[j] == last);
        }
    }
    assert(!released.latches.contains_key(last));
    assert(!released.holders.contains_key(owner)) by {
        assert(!released.holders.dom().contains(owner));
    }
}

/// The hold count after `n` locks and `m <= n` unlocks (each a fresh
/// request) from a free lock is `n - m`; it is 0 before any lock, and 0 for
/// an owner while another owner holds the lock.
pub proof fn lemma_hold_count_after(s: RedisLockState, owner: Seq<char>, other: Seq<char>, lease_ms: int, n: nat, latches: Seq<Seq<char>>)
    requires
        lock_state_inv(s),
        is_free(s),
        latches.len() <= n,
        fresh_latches(s, latches),
        other != owner,
    ensures
        hold_count(s, owner) == 0,
        hold_count(unlock_all(lock_times(s, owner, lease_ms, n), owner, lease_ms, latches), owner) == n - latches.len(),
        n > 0 ==> hold_count(lock_times(s, owner, lease_ms, n), other) == 0,
{
    assert(hold_count(s, owner) == 0) by {
        assert(!s.holders.dom().contains(owner));
    }
    lemma_lock_times(s, owner, lease_ms, n);
    let held = lock_times(s, owner, lease_ms, n);
    assert(fresh_latches(held, latches));
    lemma_unlock_all(held, owner, lease_ms, latches);
    if n > 0 {
        if held.holders.contains_key(other) {
            assert(false);
        }
    }
}

} // verus!
