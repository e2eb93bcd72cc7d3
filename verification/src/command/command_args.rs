use vstd::prelude::*;

verus! {

/// The arguments of a keyed command: the routing key (the first of the
/// caller's keys, or `null` when there is none), then the command's
/// arguments.
pub fn command_args<A>(first_key: Option<A>, null: A, args: Vec<A>) -> (v: Vec<A>)
    ensures
        v@ == seq![match first_key { Some(k) => k, None => null }] + args@,
{
    let mut v: Vec<A> = Vec::new();
    match first_key {
        Some(k) => v.push(k),
        None => v.push(null),
    }
    let mut rest = args;
    v.append(&mut rest);
    v
}

} // verus!
