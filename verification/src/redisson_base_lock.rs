use vstd::prelude::*;
use vstd::string::*;
use crate::connection::service_manager::ServiceManager;
use crate::renewal::lock_renewal_scheduler::LockRenewalScheduler;
use crate::hash_tag::{before_close, hash_tag};
use crate::text::contains_char;

verus! {

/// The lock key for `name`: `name` itself when it already holds a `'{'`,
/// else `name` wrapped in braces, so that Redis Cluster hashes every key of
/// the lock by the same hash tag.
pub open spec fn hash_tagged(name: Seq<char>) -> Seq<char> {
    if name.contains('{') {
        name
    } else {
        seq!['{'] + name + seq!['}']
    }
}

/// `owner:name`, as lock entries and holder names are written.
pub open spec fn colon_join(a: Seq<char>, b: Seq<char>) -> Seq<char> {
    a + seq![':'] + b
}

pub fn ensure_hash_tag(name: &str) -> (s: String)
    ensures
        s@ == hash_tagged(name@),
        !name@.contains('{') ==> s@ == seq!['{'] + name@ + seq!['}'],
        name@.contains('{') ==> s@ == name@,
{
    if contains_char(name, '{') {
        String::from_str(name)
    } else {
        proof {
            reveal_strlit("{");
            reveal_strlit("}");
        }
        String::from_str("{").concat(name).concat("}")
    }
}

/// Joins two texts with a colon.
pub fn join_with_colon(a: &str, b: &str) -> (s: String)
    ensures
        s@ == colon_join(a@, b@),
{
    proof {
        reveal_strlit(":");
    }
    String::from_str(a).concat(":").concat(b)
}

proof fn lemma_before_close_closed(s: Seq<char>)
    ensures
        before_close(s.push('}')) is Some,
        (before_close(s.push('}'))->0.len() > 0) == (s.len() > 0 && s[0] != '}'),
    decreases s.len(),
{
    if s.len() > 0 {
        assert(s.push('}')[0] == s[0]);
        assert(s.push('}').drop_first() == s.drop_first().push('}'));
        lemma_before_close_closed(s.drop_first());
    } else {
        assert(s.push('}')[0] == '}');
    }
}

/// Lock keys keep the whole name: a name without `'{'` becomes exactly
/// `'{' + name + '}'`, so its key is two characters longer and holds the
/// name between the braces; a name with `'{'` is its own key. Two names
/// without `'{'` never share a key, so different locks never share a
/// Redis key.
pub proof fn lemma_hash_tagged_keeps_name(name: Seq<char>, other: Seq<char>)
    ensures
        !name.contains('{') ==> hash_tagged(name) == seq!['{'] + name + seq!['}'],
        !name.contains('{') ==> hash_tagged(name).len() == name.len() + 2
            && hash_tagged(name)[0] == '{'
            && hash_tagged(name)[name.len() + 1 as int] == '}'
            && hash_tagged(name).subrange(1, name.len() + 1 as int) == name,
        name.contains('{') ==> hash_tagged(name) == name,
        !name.contains('{') && !other.contains('{') && hash_tagged(name) == hash_tagged(other) ==> name == other,
{
    if !name.contains('{') {
        let k = seq!['{'] + name + seq!['}'];
        assert(k.subrange(1, name.len() + 1 as int) =~= name);
    }
    if !name.contains('{') && !other.contains('{') && hash_tagged(name) == hash_tagged(other) {
        let k = seq!['{'] + name + seq!['}'];
        let j = seq!['{'] + other + seq!['}'];
        assert(k.len() == j.len());
        assert(k.subrange(1, name.len() + 1 as int) =~= name);
        assert(j.subrange(1, other.len() + 1 as int) =~= other);
    }
}

/// A name that holds no `'{'`, is not empty and does not begin with `'}'`
/// gets a hash tag from `ensure_hash_tag`, and its key is placed by it.
pub proof fn lemma_hash_tagged_has_tag(name: Seq<char>)
    requires
        !name.contains('{'),
        name.len() > 0,
        name[0] != '}',
    ensures
        hash_tag(hash_tagged(name)) is Some,
{
    let key = seq!['{'] + name + seq!['}'];
    assert(key[0] == '{');
    assert(key.drop_first() == name.push('}'));
    lemma_before_close_closed(name);
}

/// The fields common to distributed locks: the lock key (hash-tagged), the
/// client id, and the entry name `id:key` under which subscriptions are kept.
pub struct RedissonBaseLock {
    pub(crate) name: String,
    pub(crate) id: String,
    pub(crate) entry_name: String,
}

impl RedissonBaseLock {
    pub closed spec fn name_spec(&self) -> Seq<char> {
        self.name@
    }

    pub closed spec fn id_spec(&self) -> Seq<char> {
        self.id@
    }

    pub closed spec fn entry_name_spec(&self) -> Seq<char> {
        self.entry_name@
    }

    /// The lock called `name` of the client that `sm` serves.
    pub fn new<S>(sm: &ServiceManager<S>, name: &str) -> (l: Self)
        ensures
            l.name_spec() == hash_tagged(name@),
            l.id_spec() == sm.id_spec(),
            l.entry_name_spec() == colon_join(sm.id_spec(), hash_tagged(name@)),
    {
        let id = sm.id();
        let name = ensure_hash_tag(name);
        let entry_name = join_with_colon(id, name.as_str());
        Self { name, id: String::from_str(id), entry_name }
    }

    pub fn name(&self) -> (s: &str)
        ensures
            s@ == self.name_spec(),
    {
        self.name.as_str()
    }

    pub fn id(&self) -> (s: &str)
        ensures
            s@ == self.id_spec(),
    {
        self.id.as_str()
    }

    pub fn entry_name(&self) -> (s: &str)
        ensures
            s@ == self.entry_name_spec(),
    {
        self.entry_name.as_str()
    }

    /// Has the watchdog renew this lock for holder `lock_name`. Returns
    /// whether the caller has to start the renewal loop.
    pub fn schedule_expiration_renewal<E>(&self, scheduler: &mut LockRenewalScheduler<E>, lock_name: &str) -> (start: bool)
        requires
            old(scheduler).inv(),
            old(scheduler).has_task() || old(scheduler).executor_spec() is Some,
        ensures
            final(scheduler).inv(),
            final(scheduler).has_task(),
            final(scheduler).renewed() == (if old(scheduler).renewed().contains_key(self.name_spec()) {
                old(scheduler).renewed()
            } else {
                old(scheduler).renewed().insert(self.name_spec(), lock_name@)
            }),
            start == (!old(scheduler).renewed().contains_key(self.name_spec()) && !old(scheduler).running_spec()
                && !old(scheduler).is_shut_down()),
            final(scheduler).running_spec() == (old(scheduler).running_spec() || start),
            final(scheduler).is_shut_down() == old(scheduler).is_shut_down(),
            final(scheduler).lease_spec() == old(scheduler).lease_spec(),
            final(scheduler).executor_spec() == old(scheduler).executor_spec(),
    {
        scheduler.renew_lock(self.name.clone(), String::from_str(lock_name))
    }

    /// Has the watchdog stop renewing this lock.
    pub fn cancel_expiration_renewal<E>(&self, scheduler: &mut LockRenewalScheduler<E>)
        requires
            old(scheduler).inv(),
        ensures
            final(scheduler).inv(),
            final(scheduler).renewed() == old(scheduler).renewed().remove(self.name_spec()),
            final(scheduler).has_task() == old(scheduler).has_task(),
            final(scheduler).running_spec() == old(scheduler).running_spec(),
            final(scheduler).is_shut_down() == old(scheduler).is_shut_down(),
            final(scheduler).lease_spec() == old(scheduler).lease_spec(),
            final(scheduler).executor_spec() == old(scheduler).executor_spec(),
    {
        scheduler.cancel_lock_renewal(self.name.as_str());
    }
}

} // verus!
