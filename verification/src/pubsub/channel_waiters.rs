use vstd::prelude::*;
use vstd::string::*;
use crate::keyed::{assoc_to_map, distinct_keys, lemma_assoc_dom, lemma_assoc_lookup, lemma_assoc_push, lemma_assoc_remove, lemma_assoc_update};

verus! {

/// Who waits on each Pub/Sub channel: the channel's notifier `N` and how
/// many waiters share the subscription. The channel is subscribed while it
/// has waiters.
pub struct ChannelWaiters<N> {
    pub(crate) channels: Vec<(String, N)>,
    pub(crate) counts: Vec<u64>,
}

impl<N> ChannelWaiters<N> {
    /// The registry as (channel, (notifier, waiters)) pairs.
    pub closed spec fn pairs(&self) -> Seq<(Seq<char>, (N, u64))> {
        Seq::new(self.channels@.len(), |i: int| (self.channels@[i].0@, (self.channels@[i].1, self.counts@[i])))
    }

    /// Each channel with waiters: its notifier and how many wait.
    pub closed spec fn waiters(&self) -> Map<Seq<char>, (N, u64)> {
        assoc_to_map(self.pairs())
    }

    pub closed spec fn inv(&self) -> bool {
        &&& self.channels@.len() == self.counts@.len()
        &&& distinct_keys(self.pairs())
        &&& forall|i: int| 0 <= i < self.counts@.len() ==> #[trigger] self.counts@[i] > 0
    }

    pub fn new() -> (w: Self)
        ensures
            w.inv(),
            w.waiters() == Map::<Seq<char>, (N, u64)>::empty(),
    {
        let w = Self { channels: Vec::new(), counts: Vec::new() };
        assert(w.pairs() =~= Seq::<(Seq<char>, (N, u64))>::empty());
        w
    }

    fn find(&self, channel: &String) -> (r: Option<usize>)
        requires
            self.inv(),
        ensures
            match r {
                Some(i) => i < self.pairs().len() && self.pairs()[i as int].0 == channel@,
                None => !self.waiters().contains_key(channel@),
            },
    {
        proof {
            lemma_assoc_dom(self.pairs(), channel@);
        }
        let n: usize = self.channels.len();
        for i in 0..n
            invariant
                n == self.channels@.len(),
                self.inv(),
                forall|j: int| 0 <= j < i ==> self.pairs()[j].0 != channel@,
        {
            if self.channels[i].0 == *channel {
                return Some(i);
            }
        }
        None
    }

    /// Whether one more waiter can join `channel` without its count
    /// overflowing.
    pub fn can_join(&self, channel: &str) -> (b: bool)
        requires
            self.inv(),
        ensures
            b == (self.waiters().contains_key(channel@) ==> self.waiters()[channel@].1 < u64::MAX),
    {
        let key = String::from_str(channel);
        match self.find(&key) {
            Some(i) => {
                proof {
                    lemma_assoc_lookup(self.pairs(), i as int);
                }
                self.counts[i] < u64::MAX
            },
            None => true,
        }
    }

    /// Adds a waiter to `channel`; `fresh` becomes its notifier when it is
    /// the first. Returns whether it is the first, that is, whether the
    /// channel has to be subscribed.
    pub fn join(&mut self, channel: &str, fresh: N) -> (first: bool)
        requires
            old(self).inv(),
            old(self).waiters().contains_key(channel@) ==> old(self).waiters()[channel@].1 < u64::MAX,
        ensures
            final(self).inv(),
            first == !old(self).waiters().contains_key(channel@),
            final(self).waiters() == (if first {
                old(self).waiters().insert(channel@, (fresh, 1))
            } else {
                old(self).waiters().insert(channel@, (old(self).waiters()[channel@].0, (old(self).waiters()[channel@].1 + 1) as u64))
            }),
    {
        let key = String::from_str(channel);
        let ghost before = self.pairs();
        match self.find(&key) {
            Some(i) => {
                proof {
                    lemma_assoc_lookup(before, i as int);
                }
                let c: u64 = self.counts[i];
                self.counts.set(i, c + 1);
                proof {
                    let v = (before[i as int].1.0, (c + 1) as u64);
                    lemma_assoc_update(before, i as int, v);
                    assert(self.pairs() =~= before.update(i as int, (before[i as int].0, v)));
                }
                false
            },
            None => {
                self.channels.push((key, fresh));
                self.counts.push(1);
                proof {
                    lemma_assoc_push(before, channel@, (fresh, 1u64));
                    assert(self.pairs() =~= before.push((channel@, (fresh, 1u64))));
                }
                true
            },
        }
    }

    /// The notifier of `channel`, while it has waiters.
    pub fn notifier(&self, channel: &str) -> (r: Option<&N>)
        requires
            self.inv(),
        ensures
            match r {
                Some(n) => self.waiters().contains_key(channel@) && self.waiters()[channel@].0 == *n,
                None => !self.waiters().contains_key(channel@),
            },
    {
        let key = String::from_str(channel);
        match self.find(&key) {
            Some(i) => {
                proof {
                    lemma_assoc_lookup(self.pairs(), i as int);
                }
                Some(&self.channels[i].1)
            },
            None => None,
        }
    }

    /// Removes a waiter from `channel`. Returns whether it was the last,
    /// that is, whether the channel has to be unsubscribed.
    pub fn leave(&mut self, channel: &str) -> (last: bool)
        requires
            old(self).inv(),
        ensures
            final(self).inv(),
            !old(self).waiters().contains_key(channel@) ==> !last && final(self).waiters() == old(self).waiters(),
            old(self).waiters().contains_key(channel@) ==> (last <==> old(self).waiters()[channel@].1 == 1),
            old(self).waiters().contains_key(channel@) && last ==> final(self).waiters() == old(self).waiters().remove(channel@),
            old(self).waiters().contains_key(channel@) && !last ==> final(self).waiters() == old(self).waiters().insert(
                channel@,
                (old(self).waiters()[channel@].0, (old(self).waiters()[channel@].1 - 1) as u64),
            ),
    {
        let key = String::from_str(channel);
        let ghost before = self.pairs();
        match self.find(&key) {
            Some(i) => {
                proof {
                    lemma_assoc_lookup(before, i as int);
                }
                let c: u64 = self.counts[i];
                if c <= 1 {
                    self.channels.remove(i);
                    self.counts.remove(i);
                    proof {
                        lemma_assoc_remove(before, i as int);
                        assert(self.pairs() =~= before.remove(i as int));
                    }
                    true
                } else {
                    self.counts.set(i, c - 1);
                    proof {
                        let v = (before[i as int].1.0, (c - 1) as u64);
                        lemma_assoc_update(before, i as int, v);
                        assert(self.pairs() =~= before.update(i as int, (before[i as int].0, v)));
                    }
                    false
                }
            },
            None => false,
        }
    }
}

/// A waiter that joins a channel and then leaves it leaves the registry as
/// it found it; the channel is unsubscribed by that leave exactly when the
/// join subscribed it.
pub proof fn lemma_leave_undoes_join<N>(
    before: Map<Seq<char>, (N, u64)>,
    joined: Map<Seq<char>, (N, u64)>,
    left: Map<Seq<char>, (N, u64)>,
    channel: Seq<char>,
    fresh: N,
    first: bool,
    last: bool,
)
    requires
        before.contains_key(channel) ==> 0 < before[channel].1 < u64::MAX,
        first == !before.contains_key(channel),
        joined == (if first {
            before.insert(channel, (fresh, 1))
        } else {
            before.insert(channel, (before[channel].0, (before[channel].1 + 1) as u64))
        }),
        last <==> joined[channel].1 == 1,
        last ==> left == joined.remove(channel),
        !last ==> left == joined.insert(channel, (joined[channel].0, (joined[channel].1 - 1) as u64)),
    ensures
        left == before,
        last == first,
{
    assert(left =~= before);
}

} // verus!
