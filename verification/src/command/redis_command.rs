use vstd::prelude::*;
use std::marker::PhantomData;

verus! {

/// A Redis command by name, typed by what its reply decodes to.
pub struct RedisCommand<T> {
    pub(crate) name: &'static str,
    pub(crate) _phantom: PhantomData<T>,
}

impl<T> RedisCommand<T> {
    pub closed spec fn name_spec(&self) -> Seq<char> {
        self.name@
    }

    pub fn new(name: &'static str) -> (c: Self)
        ensures
            c.name_spec() == name@,
    {
        Self { name, _phantom: PhantomData }
    }

    /// The command's name.
    pub fn name(&self) -> (s: &'static str)
        ensures
            s@ == self.name_spec(),
    {
        self.name
    }
}

} // verus!
