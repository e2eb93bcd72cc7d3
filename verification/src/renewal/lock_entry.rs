use vstd::prelude::*;

verus! {

/// The renewal record of one held lock: who holds it, as `clientId:taskId`.
pub struct LockEntry {
    pub(crate) owner_id: String,
}

impl View for LockEntry {
    type V = Seq<char>;

    /// The owner's identifier.
    closed spec fn view(&self) -> Seq<char> {
        self.owner_id@
    }
}

impl LockEntry {
    pub fn new(owner_id: String) -> (e: Self)
        ensures
            e@ == owner_id@,
    {
        Self { owner_id }
    }

    pub fn owner_id(&self) -> (s: &str)
        ensures
            s@ == self@,
    {
        self.owner_id.as_str()
    }
}

} // verus!
