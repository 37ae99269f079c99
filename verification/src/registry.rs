//! The table that maps a handle back to the name it was resolved from.

use std::collections::HashMap;
use vstd::prelude::*;

verus! {

/// Maps each handle that a name resolution has returned to that name.
/// Entries are added or overwritten, never removed.
pub struct HandleRegistry {
    names: HashMap<u64, Vec<u8>>,
}

impl View for HandleRegistry {
    type V = Map<u64, Seq<u8>>;

    closed spec fn view(&self) -> Map<u64, Seq<u8>> {
        self.names@.map_values(|name: Vec<u8>| name@)
    }
}

impl HandleRegistry {
    /// An empty registry.
    pub fn new() -> (r: HandleRegistry)
        ensures
            r@ == Map::<u64, Seq<u8>>::empty(),
    {
        let r = HandleRegistry { names: HashMap::new() };
        assert(r@ =~= Map::<u64, Seq<u8>>::empty());
        r
    }

    /// Stores `name` under `handle`, replacing what was stored there.
    pub fn record(&mut self, handle: u64, name: Vec<u8>)
        ensures
            final(self)@ == old(self)@.insert(handle, name@),
    {
        broadcast use vstd::std_specs::hash::group_hash_axioms;

        self.names.insert(handle, name);
        assert(self@ =~= old(self)@.insert(handle, name@));
    }

    /// The name stored under `handle`, if there is one.
    pub fn resolve(&self, handle: u64) -> (r: Option<&Vec<u8>>)
        ensures
            match r {
                Some(name) => self@.contains_key(handle) && name@ == self@[handle],
                None => !self@.contains_key(handle),
            },
    {
        broadcast use vstd::std_specs::hash::group_hash_axioms;

        self.names.get(&handle)
    }
}

} // verus!
