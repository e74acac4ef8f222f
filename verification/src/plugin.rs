//! Plugins: named bundles of command-to-handler bindings plus one non-owning
//! shared-state key. A plugin is built once at startup by registering each
//! (command code, handler) pair; registering a code twice overwrites, so the
//! last registration wins.

use vstd::prelude::*;
use crate::handler::Handler;
use crate::table::{assoc_view, keys_unique, table_set};

verus! {

/// A named bundle of command bindings and one shared-state key.
pub struct Plugin {
    pub name: String,
    pub state: Option<u64>,
    pub handlers: Vec<(u64, Handler)>,
}

impl View for Plugin {
    type V = Plugin;

    open spec fn view(&self) -> Plugin {
        *self
    }
}

impl Plugin {
    /// The plugin's name, unique within a dispatcher.
    pub open spec fn spec_name(self) -> Seq<char> {
        self.name@
    }

    /// The non-owning key of the shared subsystem state; `None` while no
    /// state was bound.
    pub open spec fn spec_state(self) -> Option<u64> {
        self.state
    }

    /// The command mapping: code to handler.
    pub open spec fn spec_handlers(self) -> Map<u64, Handler> {
        assoc_view(self.handlers@)
    }

    /// Command codes are pairwise distinct within one plugin.
    pub open spec fn wf(self) -> bool {
        keys_unique(self.handlers@)
    }

    /// An empty plugin with the given name: no state bound, no command
    /// registered. Pure construction, never fails.
    pub fn new(name: String) -> (p: Plugin)
        ensures
            p.spec_name() == name@,
            p.spec_state() is None,
            p.spec_handlers() == Map::<u64, Handler>::empty(),
            p.wf(),
    {
        let p = Plugin { name, state: None, handlers: Vec::new() };
        proof {
            assert(p.spec_handlers() =~= Map::<u64, Handler>::empty());
        }
        p
    }

    /// Binds the non-owning shared-state key; rebinding overwrites the
    /// previous binding.
    pub fn with_state(self, state: u64) -> (p: Plugin)
        ensures
            p.spec_name() == self.spec_name(),
            p.spec_state() == Some(state),
            p.spec_handlers() == self.spec_handlers(),
            p.wf() == self.wf(),
    {
        Plugin { name: self.name, state: Some(state), handlers: self.handlers }
    }

    /// Registers a handler for a command code. Registering a duplicate code
    /// overwrites the previous handler: the last registration wins.
    pub fn register(self, code: u64, handler: Handler) -> (p: Plugin)
        requires
            self.wf(),
        ensures
            p.wf(),
            p.spec_name() == self.spec_name(),
            p.spec_state() == self.spec_state(),
            p.spec_handlers() == self.spec_handlers().insert(code, handler),
    {
        let mut p = self;
        table_set(&mut p.handlers, code, handler);
        p
    }
}

/// Duplicate-registration override law: registering a handler and then a
/// second handler for the same code leaves the mapping exactly as if only
/// the second had been registered, so a dispatch resolves the handler
/// registered last and the overwritten one leaves no trace.
pub proof fn lemma_last_registration_wins(m: Map<u64, Handler>, code: u64, h1: Handler, h2: Handler)
    ensures
        m.insert(code, h1).insert(code, h2) == m.insert(code, h2),
{
    assert(m.insert(code, h1).insert(code, h2) =~= m.insert(code, h2));
}

} // verus!
