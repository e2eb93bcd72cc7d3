use vstd::prelude::*;
use crate::keyed::{assoc_to_map, distinct_keys, lemma_assoc_dom, lemma_assoc_lookup, lemma_assoc_remove};
use crate::renewal::lock_entry::LockEntry;
use crate::redisson_lock::{texts, ScriptCall};
use crate::renewal::renewal_task::RenewalTask;
use crate::text::{decimal, decimal_string};

verus! {

/// Renews the lease `ARGV[1]` of lock `KEYS[1]` while `ARGV[2]` holds it;
/// replies 1 when renewed, 0 when the holder no longer holds the lock.
pub const RENEW_SCRIPT: &'static str = "if (redis.call('hexists', KEYS[1], ARGV[2]) == 1) then \
redis.call('pexpire', KEYS[1], ARGV[1]); \
return 1; \
end; \
return 0;";

/// The call that renews lock `name` for holder `owner`.
pub fn renewal_call(name: &str, owner: &str, lease_ms: u64) -> (c: ScriptCall)
    ensures
        c.script@ == RENEW_SCRIPT@,
        texts(c.keys@) == seq![name@],
        texts(c.args@) == seq![decimal(lease_ms as nat), owner@],
{
    let mut keys: Vec<String> = Vec::new();
    keys.push(String::from_str(name));
    let mut args: Vec<String> = Vec::new();
    args.push(decimal_string(lease_ms));
    args.push(String::from_str(owner));
    assert(texts(keys@) =~= seq![name@]);
    assert(texts(args@) =~= seq![decimal(lease_ms as nat), owner@]);
    ScriptCall { script: RENEW_SCRIPT, keys, args }
}

/// How often the leases are renewed: a third of the lease, at least 1 ms.
pub fn renewal_interval_ms(lease_ms: u64) -> (ms: u64)
    ensures
        ms == (if lease_ms / 3 < 1 { 1 } else { lease_ms / 3 }),
        ms >= 1,
        lease_ms >= 3 ==> 3 * ms <= lease_ms,
{
    let third: u64 = lease_ms / 3;
    if third < 1 { 1 } else { third }
}

/// The watchdog's registry: which locks to keep alive, and whether the
/// renewal loop runs.
pub struct LockTask {
    pub(crate) internal_lock_lease_time: u64,
    pub(crate) name2entry: Vec<(String, LockEntry)>,
    pub(crate) running: bool,
    pub(crate) shut_down: bool,
}

impl LockTask {
    /// The registry as (name, holder) pairs, in insertion order.
    pub closed spec fn pairs(&self) -> Seq<(Seq<char>, Seq<char>)> {
        self.name2entry@.map_values(|e: (String, LockEntry)| (e.0@, e.1@))
    }

    pub closed spec fn lease_spec(&self) -> u64 {
        self.internal_lock_lease_time
    }

    pub fn new(internal_lock_lease_time: u64) -> (t: Self)
        ensures
            t.inv(),
            t.renewed() == Map::<Seq<char>, Seq<char>>::empty(),
            t.lease_spec() == internal_lock_lease_time,
            !t.is_running(),
            !t.is_shut_down(),
    {
        let t = Self { internal_lock_lease_time, name2entry: Vec::new(), running: false, shut_down: false };
        assert(t.pairs() =~= Seq::<(Seq<char>, Seq<char>)>::empty());
        t
    }

    /// The lease each renewal sets, in ms.
    pub fn internal_lock_lease_time(&self) -> (ms: u64)
        ensures
            ms == self.lease_spec(),
    {
        self.internal_lock_lease_time
    }

    /// Whether the renewal loop is marked as running.
    pub fn running(&self) -> (b: bool)
        ensures
            b == self.is_running(),
    {
        self.running
    }

    /// Marks the renewal loop as started. Returns `true` when the caller has
    /// to start it now: it was not running and the task is not shut down.
    pub fn try_run(&mut self) -> (start: bool)
        ensures
            start == (!old(self).is_running() && !old(self).is_shut_down()),
            final(self).is_running() == (old(self).is_running() || start),
            final(self).renewed() == old(self).renewed(),
            final(self).pairs() == old(self).pairs(),
            final(self).is_shut_down() == old(self).is_shut_down(),
            final(self).lease_spec() == old(self).lease_spec(),
            final(self).inv() == old(self).inv(),
    {
        if self.running || self.shut_down {
            false
        } else {
            self.running = true;
            true
        }
    }

    /// The locks to renew, as (name, holder) pairs.
    pub fn snapshot(&self) -> (v: Vec<(String, String)>)
        requires
            self.inv(),
        ensures
            forall|i: int| 0 <= i < v@.len() ==> self.renewed().contains_key((#[trigger] v@[i]).0@)
                && self.renewed()[v@[i].0@] == v@[i].1@,
            forall|k: Seq<char>| self.renewed().contains_key(k) ==> exists|i: int|
                0 <= i < v@.len() && (#[trigger] v@[i]).0@ == k,
            forall|i: int, j: int| 0 <= i < j < v@.len() ==> (#[trigger] v@[i]).0@ != (#[trigger] v@[j]).0@,
    {
        let mut v: Vec<(String, String)> = Vec::new();
        let n: usize = self.name2entry.len();
        for i in 0..n
            invariant
                n == self.name2entry@.len(),
                v@.len() == i,
                forall|j: int| 0 <= j < i ==> (#[trigger] v@[j]).0@ == self.pairs()[j].0
                    && v@[j].1@ == self.pairs()[j].1,
        {
            let name = self.name2entry[i].0.clone();
            let owner = String::from_str(self.name2entry[i].1.owner_id());
            v.push((name, owner));
        }
        proof {
            assert forall|i: int| 0 <= i < v@.len() implies self.renewed().contains_key((#[trigger] v@[i]).0@)
                && self.renewed()[v@[i].0@] == v@[i].1@ by {
                lemma_assoc_lookup(self.pairs(), i);
            }
            assert forall|k: Seq<char>| self.renewed().contains_key(k) implies exists|i: int|
                0 <= i < v@.len() && (#[trigger] v@[i]).0@ == k by {
                lemma_assoc_dom(self.pairs(), k);
                let i = choose|i: int| 0 <= i < self.pairs().len() && self.pairs()[i].0 == k;
                assert(v@[i].0@ == k);
            }
        }
        v
    }

    /// Whether lock `name` is being renewed.
    pub fn is_renewing(&self, name: &str) -> (b: bool)
        ensures
            b == self.renewed().contains_key(name@),
    {
        let key = String::from_str(name);
        proof {
            lemma_assoc_dom(self.pairs(), name@);
        }
        match self.find(&key) {
            Some(_) => true,
            None => false,
        }
    }

    fn find(&self, name: &String) -> (r: Option<usize>)
        ensures
            match r {
                Some(i) => i < self.pairs().len() && self.pairs()[i as int].0 == name@,
                None => forall|i: int| 0 <= i < self.pairs().len() ==> self.pairs()[i].0 != name@,
            },
    {
        let n: usize = self.name2entry.len();
        for i in 0..n
            invariant
                n == self.name2entry@.len(),
                forall|j: int| 0 <= j < i ==> self.pairs()[j].0 != name@,
        {
            if self.name2entry[i].0 == *name {
                return Some(i);
            }
        }
        None
    }
}

impl RenewalTask for LockTask {
    closed spec fn renewed(&self) -> Map<Seq<char>, Seq<char>> {
        assoc_to_map(self.pairs())
    }

    closed spec fn is_running(&self) -> bool {
        self.running
    }

    closed spec fn is_shut_down(&self) -> bool {
        self.shut_down
    }

    closed spec fn inv(&self) -> bool {
        distinct_keys(self.pairs())
    }

    fn add(&mut self, name: String, lock_name: String) {
        proof {
            lemma_assoc_dom(self.pairs(), name@);
        }
        match self.find(&name) {
            Some(_) => {},
            None => {
                let ghost old_pairs = self.pairs();
                let e = LockEntry::new(lock_name);
                self.name2entry.push((name, e));
                assert(self.pairs() =~= old_pairs.push((name@, lock_name@)));
                assert(self.pairs().drop_last() =~= old_pairs);
            },
        }
    }

    fn cancel_expiration_renewal(&mut self, name: &str) {
        let key = String::from_str(name);
        proof {
            lemma_assoc_dom(self.pairs(), name@);
        }
        match self.find(&key) {
            Some(i) => {
                let ghost old_pairs = self.pairs();
                proof {
                    lemma_assoc_remove(old_pairs, i as int);
                }
                self.name2entry.remove(i);
                assert(self.pairs() =~= old_pairs.remove(i as int));
            },
            None => {
                assert(self.renewed() =~= self.renewed().remove(name@));
            },
        }
    }

    fn shutdown(&mut self) {
        self.running = false;
        self.shut_down = true;
    }
}

} // verus!
