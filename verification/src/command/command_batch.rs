use vstd::prelude::*;
use crate::text::{decimal, decimal_string};

verus! {

/// One command waiting in a batch, with the reply slot `R` through which
/// its result is handed back.
pub enum BatchEntry<A, R> {
    /// A plain command on one key.
    Command { cmd_name: &'static str, key: String, args: Vec<A>, tx: R },
    /// A Lua script with its keys.
    Eval { script: String, keys: Vec<String>, args: Vec<A>, tx: R },
}

/// How a pipelined command is routed in a cluster.
#[derive(Clone, Copy, Debug, PartialEq, Eq, Structural)]
pub enum KeyRouting {
    /// By its first key.
    FirstKey,
    /// To any node.
    Random,
}

/// One argument on the wire: text written by the batch, or a value the
/// caller queued.
pub enum WireArg<A> {
    Text(String),
    Value(A),
}

/// What a wire argument stands for.
pub enum WireArgView<A> {
    Text(Seq<char>),
    Value(A),
}

impl<A> View for WireArg<A> {
    type V = WireArgView<A>;

    open spec fn view(&self) -> WireArgView<A> {
        match self {
            WireArg::Text(s) => WireArgView::Text(s@),
            WireArg::Value(a) => WireArgView::Value(*a),
        }
    }
}

/// A command as it goes into the pipeline.
pub struct WireCommand<A> {
    pub name: &'static str,
    pub routing: KeyRouting,
    pub args: Vec<WireArg<A>>,
}

pub open spec fn wire_views<A>(s: Seq<WireArg<A>>) -> Seq<WireArgView<A>> {
    s.map_values(|w: WireArg<A>| w@)
}

pub open spec fn texts_on_wire<A>(s: Seq<String>) -> Seq<WireArgView<A>> {
    s.map_values(|x: String| WireArgView::<A>::Text(x@))
}

pub open spec fn values_on_wire<A>(s: Seq<A>) -> Seq<WireArgView<A>> {
    s.map_values(|a: A| WireArgView::<A>::Value(a))
}

/// The command name an entry is sent with.
pub open spec fn wire_name_spec<A, R>(e: BatchEntry<A, R>) -> Seq<char> {
    match e {
        BatchEntry::Command { cmd_name, .. } => cmd_name@,
        BatchEntry::Eval { .. } => "EVAL"@,
    }
}

/// The routing an entry is sent with.
pub open spec fn wire_routing_spec<A, R>(e: BatchEntry<A, R>) -> KeyRouting {
    match e {
        BatchEntry::Command { .. } => KeyRouting::FirstKey,
        BatchEntry::Eval { .. } => KeyRouting::Random,
    }
}

/// The arguments an entry is sent with: a command's key then its
/// arguments; a script, the number of its keys, the keys, then the
/// arguments.
pub open spec fn wire_args_spec<A, R>(e: BatchEntry<A, R>) -> Seq<WireArgView<A>> {
    match e {
        BatchEntry::Command { key, args, .. } =>
            seq![WireArgView::Text(key@)] + values_on_wire(args@),
        BatchEntry::Eval { script, keys, args, .. } =>
            seq![WireArgView::Text(script@), WireArgView::Text(decimal(keys@.len()))]
                + texts_on_wire(keys@) + values_on_wire(args@),
    }
}

/// The reply slot of an entry.
pub open spec fn reply_slot_spec<A, R>(e: BatchEntry<A, R>) -> R {
    match e {
        BatchEntry::Command { tx, .. } => tx,
        BatchEntry::Eval { tx, .. } => tx,
    }
}

fn append_values<A>(out: &mut Vec<WireArg<A>>, args: Vec<A>)
    ensures
        wire_views(final(out)@) == wire_views(old(out)@) + values_on_wire(args@),
{
    broadcast use vstd::std_specs::vec::axiom_spec_into_iter;
    let ghost start = wire_views(out@);
    let ghost all = args@;
    for a in it: args.into_iter()
        invariant
            it.seq() == all,
            wire_views(out@) == start + values_on_wire(all.take(it.index() as int)),
    {
        let ghost i = it.index();
        let ghost ga = a;
        let ghost before = out@;
        out.push(WireArg::Value(a));
        assert(all.take(i + 1) =~= all.take(i as int).push(ga));
        assert(wire_views(out@) =~= wire_views(before).push(WireArgView::Value(ga)));
        assert(values_on_wire(all.take(i + 1)) =~= values_on_wire(all.take(i as int)).push(WireArgView::Value(ga)));
        assert(wire_views(out@) =~= start + values_on_wire(all.take(i + 1)));
    }
    assert(all.take(all.len() as int) =~= all);
}

fn append_texts<A>(out: &mut Vec<WireArg<A>>, texts: Vec<String>)
    ensures
        wire_views(final(out)@) == wire_views(old(out)@) + texts_on_wire::<A>(texts@),
{
    let ghost start = wire_views(out@);
    let n: usize = texts.len();
    for i in 0..n
        invariant
            n == texts@.len(),
            wire_views(out@) == start + texts_on_wire::<A>(texts@.subrange(0, i as int)),
    {
        let ghost before = out@;
        let t = texts[i].clone();
        out.push(WireArg::Text(t));
        assert(texts@.subrange(0, i + 1) =~= texts@.subrange(0, i as int).push(texts@[i as int]));
        assert(wire_views(out@) =~= wire_views(before).push(WireArgView::Text(texts@[i as int]@)));
        assert(texts_on_wire::<A>(texts@.subrange(0, i + 1)) =~= texts_on_wire::<A>(texts@.subrange(0, i as int)).push(WireArgView::Text(texts@[i as int]@)));
        assert(wire_views(out@) =~= start + texts_on_wire::<A>(texts@.subrange(0, i + 1)));
    }
    assert(texts@.subrange(0, n as int) =~= texts@);
}

/// Turns an entry into the command to pipeline and the slot for its reply.
pub fn into_wire<A, R>(entry: BatchEntry<A, R>) -> (res: (WireCommand<A>, R))
    ensures
        res.0.name@ == wire_name_spec(entry),
        res.0.routing == wire_routing_spec(entry),
        wire_views(res.0.args@) == wire_args_spec(entry),
        res.1 == reply_slot_spec(entry),
{
    match entry {
        BatchEntry::Command { cmd_name, key, args, tx } => {
            let mut out: Vec<WireArg<A>> = Vec::new();
            out.push(WireArg::Text(key));
            append_values(&mut out, args);
            (WireCommand { name: cmd_name, routing: KeyRouting::FirstKey, args: out }, tx)
        },
        BatchEntry::Eval { script, keys, args, tx } => {
            let mut out: Vec<WireArg<A>> = Vec::new();
            let numkeys = decimal_string(keys.len() as u64);
            out.push(WireArg::Text(script));
            out.push(WireArg::Text(numkeys));
            append_texts(&mut out, keys);
            append_values(&mut out, args);
            (WireCommand { name: "EVAL", routing: KeyRouting::Random, args: out }, tx)
        },
    }
}

/// Turns queued entries into the commands to pipeline, in order, and the
/// reply slots, in the same order.
pub fn split_batch<A, R>(entries: Vec<BatchEntry<A, R>>) -> (res: (Vec<WireCommand<A>>, Vec<R>))
    ensures
        res.0@.len() == entries@.len(),
        res.1@.len() == entries@.len(),
        forall|i: int| 0 <= i < entries@.len() ==> {
            &&& (#[trigger] res.0@[i]).name@ == wire_name_spec(entries@[i])
            &&& res.0@[i].routing == wire_routing_spec(entries@[i])
            &&& wire_views(res.0@[i].args@) == wire_args_spec(entries@[i])
            &&& res.1@[i] == reply_slot_spec(entries@[i])
        },
{
    broadcast use vstd::std_specs::vec::axiom_spec_into_iter;
    let ghost all = entries@;
    let mut commands: Vec<WireCommand<A>> = Vec::new();
    let mut slots: Vec<R> = Vec::new();
    for e in it: entries.into_iter()
        invariant
            it.seq() == all,
            commands@.len() == it.index(),
            slots@.len() == it.index(),
            forall|i: int| 0 <= i < it.index() ==> {
                &&& (#[trigger] commands@[i]).name@ == wire_name_spec(all[i])
                &&& commands@[i].routing == wire_routing_spec(all[i])
                &&& wire_views(commands@[i].args@) == wire_args_spec(all[i])
                &&& slots@[i] == reply_slot_spec(all[i])
            },
    {
        let (c, r) = into_wire(e);
        commands.push(c);
        slots.push(r);
    }
    (commands, slots)
}

/// Pairs each reply slot with its result, in order; where one list is
/// longer, its extra items are dropped.
pub fn route_results<R, T>(senders: Vec<R>, results: Vec<T>) -> (out: Vec<(R, T)>)
    ensures
        out@.len() == (if senders@.len() <= results@.len() { senders@.len() } else { results@.len() }),
        forall|i: int| 0 <= i < out@.len() ==> (#[trigger] out@[i]).0 == senders@[i] && out@[i].1 == results@[i],
{
    let ghost s0 = senders@;
    let ghost r0 = results@;
    let n: usize = if senders.len() <= results.len() { senders.len() } else { results.len() };
    let mut senders = senders;
    let mut results = results;
    senders.truncate(n);
    results.truncate(n);
    let mut rev: Vec<(R, T)> = Vec::new();
    while senders.len() > 0
        invariant
            senders@.len() == results@.len(),
            senders@.len() + rev@.len() == n,
            n <= s0.len(),
            n <= r0.len(),
            forall|j: int| 0 <= j < senders@.len() ==> senders@[j] == s0[j] && results@[j] == r0[j],
            forall|j: int| 0 <= j < rev@.len() ==> (#[trigger] rev@[j]).0 == s0[n - 1 - j] && rev@[j].1 == r0[n - 1 - j],
        decreases senders@.len(),
    {
        let s = senders.pop().unwrap();
        let r = results.pop().unwrap();
        rev.push((s, r));
    }
    let mut out: Vec<(R, T)> = Vec::new();
    while rev.len() > 0
        invariant
            rev@.len() + out@.len() == n,
            forall|j: int| 0 <= j < rev@.len() ==> (#[trigger] rev@[j]).0 == s0[n - 1 - j] && rev@[j].1 == r0[n - 1 - j],
            forall|j: int| 0 <= j < out@.len() ==> (#[trigger] out@[j]).0 == s0[j] && out@[j].1 == r0[j],
        decreases rev@.len(),
    {
        let p = rev.pop().unwrap();
        out.push(p);
    }
    out
}

/// The commands queued for one batch, with their reply slots.
pub struct BatchQueue<A, R> {
    pub(crate) queue: Vec<BatchEntry<A, R>>,
}

impl<A, R> BatchQueue<A, R> {
    /// The queued entries, oldest first.
    pub closed spec fn entries(&self) -> Seq<BatchEntry<A, R>> {
        self.queue@
    }

    pub fn new() -> (q: Self)
        ensures
            q.entries() == Seq::<BatchEntry<A, R>>::empty(),
    {
        Self { queue: Vec::new() }
    }

    /// Queues a plain command (a read or a write).
    pub fn push_command(&mut self, cmd_name: &'static str, key: String, args: Vec<A>, tx: R)
        ensures
            final(self).entries() == old(self).entries().push(BatchEntry::Command { cmd_name, key, args, tx }),
    {
        self.queue.push(BatchEntry::Command { cmd_name, key, args, tx });
    }

    /// Queues a script (a read or a write).
    pub fn push_eval(&mut self, script: String, keys: Vec<String>, args: Vec<A>, tx: R)
        ensures
            final(self).entries() == old(self).entries().push(BatchEntry::Eval { script, keys, args, tx }),
    {
        self.queue.push(BatchEntry::Eval { script, keys, args, tx });
    }

    pub fn len(&self) -> (n: usize)
        ensures
            n == self.entries().len(),
    {
        self.queue.len()
    }

    pub fn is_empty(&self) -> (b: bool)
        ensures
            b == (self.entries().len() == 0),
    {
        self.queue.len() == 0
    }

    /// Takes every queued entry, leaving the queue empty.
    pub fn take_all(&mut self) -> (v: Vec<BatchEntry<A, R>>)
        ensures
            v@ == old(self).entries(),
            final(self).entries() == Seq::<BatchEntry<A, R>>::empty(),
    {
        let mut taken: Vec<BatchEntry<A, R>> = Vec::new();
        std::mem::swap(&mut taken, &mut self.queue);
        taken
    }
}

} // verus!
