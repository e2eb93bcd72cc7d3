use vstd::prelude::*;

verus! {

/// Whether a cluster publishes lock notifications with sharded Pub/Sub
/// (`SPUBLISH`): decided by probing the server, always, or never.
#[derive(Clone, Copy, Debug, PartialEq, Eq, Structural)]
pub enum ShardedSubscriptionMode {
    Auto,
    On,
    Off,
}

} // verus!
