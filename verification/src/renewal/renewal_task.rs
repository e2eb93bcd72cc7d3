use vstd::prelude::*;

verus! {

/// A watchdog task that keeps the leases of held locks alive.
///
/// Its state is the set of locks it renews, each lock name mapped to its
/// holder, whether its renewal loop runs, and whether it has been shut down.
pub trait RenewalTask {
    /// The locks being renewed: lock name to holder.
    spec fn renewed(&self) -> Map<Seq<char>, Seq<char>>;

    /// Whether the renewal loop runs.
    spec fn is_running(&self) -> bool;

    /// Whether the task has been stopped for good.
    spec fn is_shut_down(&self) -> bool;

    /// The task's own well-formedness.
    spec fn inv(&self) -> bool;

    /// Starts renewing `name` for `lock_name`. A lock already renewed keeps
    /// its first holder.
    fn add(&mut self, name: String, lock_name: String)
        requires
            old(self).inv(),
        ensures
            final(self).inv(),
            final(self).renewed() == (if old(self).renewed().contains_key(name@) {
                old(self).renewed()
            } else {
                old(self).renewed().insert(name@, lock_name@)
            }),
            final(self).is_shut_down() == old(self).is_shut_down(),
            final(self).is_running() == old(self).is_running(),
    ;

    /// Stops renewing `name`.
    fn cancel_expiration_renewal(&mut self, name: &str)
        requires
            old(self).inv(),
        ensures
            final(self).inv(),
            final(self).renewed() == old(self).renewed().remove(name@),
            final(self).is_shut_down() == old(self).is_shut_down(),
            final(self).is_running() == old(self).is_running(),
    ;

    /// Stops the renewal loop for good.
    fn shutdown(&mut self)
        requires
            old(self).inv(),
        ensures
            final(self).inv(),
            final(self).renewed() == old(self).renewed(),
            final(self).is_shut_down(),
            !final(self).is_running(),
    ;
}

} // verus!
