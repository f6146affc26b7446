//! The operator registry: a table from operator ids to display names.
//!
//! Names serve diagnostics only. Nothing that decides the identity of a node
//! reads them.

use std::collections::HashMap;
use vstd::prelude::*;

verus! {

/// A table that hands out operator ids and remembers the name given to each.
///
/// Ids are handed out in increasing order from zero and are never taken back,
/// so an id keeps its name for as long as the registry lives.
#[derive(Debug)]
pub struct Registry {
    names: HashMap<u32, String>,
    next: u32,
}

impl View for Registry {
    type V = Map<u32, Seq<char>>;

    /// The name bound to each registered id.
    closed spec fn view(&self) -> Map<u32, Seq<char>> {
        self.names@.map_values(|name: String| name@)
    }
}

impl Registry {
    /// The registered ids are exactly those handed out so far. `new` sets this
    /// up and `register` keeps it.
    pub closed spec fn wf(&self) -> bool {
        forall|id: u32| self.names@.contains_key(id) <==> id < self.next
    }

    /// How many ids the registry has handed out.
    pub closed spec fn issued(&self) -> nat {
        self.next as nat
    }

    /// A registry with no operator in it.
    pub fn new() -> (out: Registry)
        ensures
            out.wf(),
            out@ == Map::<u32, Seq<char>>::empty(),
            out.issued() == 0,
    {
        let out = Registry { names: HashMap::new(), next: 0 };
        assert(out@ =~= Map::<u32, Seq<char>>::empty());
        out
    }

    /// Binds `name` to an id that no earlier call returned, and returns the id.
    /// Every other binding stays as it was.
    pub fn register(&mut self, name: String) -> (id: u32)
        requires
            old(self).wf(),
            old(self).issued() < u32::MAX,
        ensures
            final(self).wf(),
            id == old(self).issued(),
            !old(self)@.contains_key(id),
            final(self)@ == old(self)@.insert(id, name@),
            final(self).issued() == old(self).issued() + 1,
    {
        let id: u32 = self.next;
        let ghost before = self.names@;
        self.names.insert(id, name);
        self.next = id + 1;
        assert(self.names@.map_values(|name: String| name@) =~= before.map_values(
            |name: String| name@,
        ).insert(id, name@));
        id
    }

    /// The name bound to `id`, or `None` where the registry never handed `id` out.
    pub fn name_of(&self, id: u32) -> (out: Option<&String>)
        ensures
            match out {
                Some(name) => self@.contains_key(id) && name@ == self@[id],
                None => !self@.contains_key(id),
            },
    {
        self.names.get(&id)
    }

    /// Whether the registry has handed `id` out.
    pub fn contains(&self, id: u32) -> (out: bool)
        ensures
            out == self@.contains_key(id),
    {
        self.names.get(&id).is_some()
    }
}

} // verus!
