//! Shared subsystem state and the registry that resolves it. A plugin holds
//! a non-owning key, not the subsystem itself; every dispatch resolves the
//! key against the registry and fails fast with `StateUnavailable` when the
//! subsystem has been torn down, so the dispatch layer never extends a
//! subsystem's lifetime.

use vstd::prelude::*;
use crate::table::{assoc_view, keys_unique, table_get, table_set, table_remove};

verus! {

/// The state of one live subsystem at the dispatch interface: its record
/// store, a mapping from record identifier to record bytes.
pub struct SubsystemState {
    pub records: Vec<(u64, Vec<u8>)>,
}

impl View for SubsystemState {
    type V = Map<u64, Seq<u8>>;

    open spec fn view(&self) -> Map<u64, Seq<u8>> {
        assoc_view(self.records@)
    }
}

impl SubsystemState {
    /// Record identifiers are pairwise distinct.
    pub open spec fn wf(self) -> bool {
        keys_unique(self.records@)
    }

    /// A subsystem holding no records.
    pub fn new() -> (s: SubsystemState)
        ensures
            s@ == Map::<u64, Seq<u8>>::empty(),
            s.wf(),
    {
        let s = SubsystemState { records: Vec::new() };
        proof {
            assert(s@ =~= Map::<u64, Seq<u8>>::empty());
        }
        s
    }

    /// Stores a record under its identifier; an existing record with the
    /// same identifier is overwritten.
    pub fn store(&mut self, id: u64, data: Vec<u8>)
        requires
            old(self).wf(),
        ensures
            final(self).wf(),
            final(self)@ == old(self)@.insert(id, data@),
    {
        table_set(&mut self.records, id, data);
    }

    /// Looks a record up by its identifier.
    pub fn fetch(&self, id: u64) -> (r: Option<&Vec<u8>>)
        ensures
            match r {
                Some(d) => self@.contains_key(id) && d@ == self@[id],
                None => !self@.contains_key(id),
            },
    {
        table_get(&self.records, id)
    }
}

/// The registry that stands between a plugin's non-owning state key and the
/// live subsystem: a subsystem is reachable exactly while its key is
/// registered, and tearing a subsystem down removes the key.
pub struct StateRegistry {
    pub states: Vec<(u64, SubsystemState)>,
}

impl View for StateRegistry {
    type V = Map<u64, Map<u64, Seq<u8>>>;

    open spec fn view(&self) -> Map<u64, Map<u64, Seq<u8>>> {
        assoc_view(self.states@)
    }
}

impl StateRegistry {
    /// Keys are pairwise distinct and every registered subsystem is well
    /// formed.
    pub open spec fn wf(self) -> bool {
        &&& keys_unique(self.states@)
        &&& forall|i: int| 0 <= i < self.states@.len() ==> (#[trigger] self.states@[i]).1.wf()
    }

    /// A registry with no live subsystem.
    pub fn new() -> (r: StateRegistry)
        ensures
            r@ == Map::<u64, Map<u64, Seq<u8>>>::empty(),
            r.wf(),
    {
        let r = StateRegistry { states: Vec::new() };
        proof {
            assert(r@ =~= Map::<u64, Map<u64, Seq<u8>>>::empty());
        }
        r
    }

    /// Registers a live subsystem under a key; a subsystem previously
    /// registered under the same key is replaced.
    pub fn register_state(&mut self, key: u64, sub: SubsystemState)
        requires
            old(self).wf(),
            sub.wf(),
        ensures
            final(self).wf(),
            final(self)@ == old(self)@.insert(key, sub@),
    {
        table_set(&mut self.states, key, sub);
        proof {
            assert forall|i: int| 0 <= i < self.states@.len() implies (
            #[trigger] self.states@[i]).1.wf() by {
                if self.states@[i] != (key, sub) {
                    assert(old(self).states@.contains(self.states@[i]));
                    let j = choose|j: int|
                        0 <= j < old(self).states@.len() && old(self).states@[j] == self.states@[i];
                    assert(old(self).states@[j].1.wf());
                }
            }
        }
    }

    /// Tears a subsystem down: the key no longer resolves, and the subsystem
    /// is handed back to its owner.
    pub fn remove_state(&mut self, key: u64) -> (r: Option<SubsystemState>)
        requires
            old(self).wf(),
        ensures
            final(self).wf(),
            final(self)@ == old(self)@.remove(key),
            match r {
                Some(sub) => old(self)@.contains_key(key) && sub@ == old(self)@[key] && sub.wf(),
                None => !old(self)@.contains_key(key) && final(self)@ == old(self)@,
            },
    {
        let r = table_remove(&mut self.states, key);
        proof {
            assert forall|i: int| 0 <= i < self.states@.len() implies (
            #[trigger] self.states@[i]).1.wf() by {
                assert(old(self).states@.contains(self.states@[i]));
                let j = choose|j: int|
                    0 <= j < old(self).states@.len() && old(self).states@[j] == self.states@[i];
                assert(old(self).states@[j].1.wf());
            }
        }
        match &r {
            Some(sub) => {
                proof {
                    assert(old(self).states@.contains((key, *sub)));
                    let j = choose|j: int|
                        0 <= j < old(self).states@.len() && old(self).states@[j] == (key, *sub);
                    assert(old(self).states@[j].1.wf());
                }
            },
            None => {},
        }
        r
    }

    /// True while the key resolves to a live subsystem.
    pub fn resolves(&self, key: u64) -> (r: bool)
        ensures
            r == self@.contains_key(key),
    {
        match table_get(&self.states, key) {
            Some(_) => true,
            None => false,
        }
    }
}

} // verus!
