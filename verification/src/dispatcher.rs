//! The dispatcher: a process-wide registry of installed plugins and the
//! single entry point that routes a (plugin name, command code, request
//! bytes) call to a handler. Lookup, decode, state resolution, invocation
//! and response encoding are each specified, and the whole call is pinned to
//! one mathematical outcome function, `spec_dispatch`.

use vstd::prelude::*;
use crate::codec::{
    decode_request, encode_response, opt_view, spec_decode_request, spec_encode_response,
};
use crate::error::{DispatchError, ErrorView};
use crate::handler::{run_handler, spec_run_records, spec_run_result};
use crate::plugin::Plugin;
use crate::state::StateRegistry;
use crate::table::table_get;

verus! {

/// The installed plugins as a finite map keyed by plugin name. An earlier
/// plugin shadows a later one with the same name; with distinct names the
/// order does not matter.
pub open spec fn plugins_view(s: Seq<Plugin>) -> Map<Seq<char>, Plugin>
    decreases s.len(),
{
    if s.len() == 0 {
        Map::empty()
    } else {
        plugins_view(s.drop_first()).insert(s[0].spec_name(), s[0])
    }
}

/// Pairwise-distinct plugin names.
pub open spec fn names_unique(s: Seq<Plugin>) -> bool {
    forall|i: int, j: int| 0 <= i < j < s.len() ==> s[i].spec_name() != s[j].spec_name()
}

/// The first plugin holding a name gives that name its entry in the map.
pub proof fn lemma_plugins_found(s: Seq<Plugin>, j: int, n: Seq<char>)
    requires
        0 <= j < s.len(),
        s[j].spec_name() == n,
        forall|t: int| 0 <= t < j ==> s[t].spec_name() != n,
    ensures
        plugins_view(s).contains_key(n),
        plugins_view(s)[n] == s[j],
    decreases j,
{
    if j > 0 {
        assert forall|t: int| 0 <= t < j - 1 implies s.drop_first()[t].spec_name() != n by {
            assert(s[t + 1].spec_name() != n);
        }
        lemma_plugins_found(s.drop_first(), j - 1, n);
        assert(s[0].spec_name() != n);
    }
}

/// A name held by no plugin is absent from the map.
pub proof fn lemma_plugins_absent(s: Seq<Plugin>, n: Seq<char>)
    requires
        forall|t: int| 0 <= t < s.len() ==> s[t].spec_name() != n,
    ensures
        !plugins_view(s).contains_key(n),
    decreases s.len(),
{
    if s.len() > 0 {
        assert forall|t: int| 0 <= t < s.drop_first().len() implies s.drop_first()[t].spec_name()
            != n by {
            assert(s[t + 1].spec_name() != n);
        }
        lemma_plugins_absent(s.drop_first(), n);
        assert(s[0].spec_name() != n);
    }
}

/// Removing the plugin of a name removes exactly that name from the map.
pub proof fn lemma_plugins_remove(s: Seq<Plugin>, j: int, n: Seq<char>)
    requires
        names_unique(s),
        0 <= j < s.len(),
        s[j].spec_name() == n,
    ensures
        plugins_view(s.remove(j)) == plugins_view(s).remove(n),
        names_unique(s.remove(j)),
    decreases j,
{
    s.remove_ensures(j);
    assert forall|a: int, b: int|
        0 <= a < b < s.remove(j).len() implies s.remove(j)[a].spec_name() != s.remove(
        j,
    )[b].spec_name() by {
        if a < j && b < j {
            assert(s[a].spec_name() != s[b].spec_name());
        } else if a < j {
            assert(s[a].spec_name() != s[b + 1].spec_name());
        } else {
            assert(s[a + 1].spec_name() != s[b + 1].spec_name());
        }
    }
    if j == 0 {
        assert(s.remove(0) =~= s.drop_first());
        assert forall|t: int| 0 <= t < s.drop_first().len() implies s.drop_first()[t].spec_name()
            != n by {
            assert(s[t + 1].spec_name() != s[0].spec_name());
        }
        lemma_plugins_absent(s.drop_first(), n);
        assert(plugins_view(s.drop_first()) =~= (plugins_view(s.drop_first()).insert(
            n,
            s[0],
        )).remove(n));
    } else {
        assert(s.remove(j).drop_first() =~= s.drop_first().remove(j - 1));
        assert forall|a: int, b: int|
            0 <= a < b < s.drop_first().len() implies s.drop_first()[a].spec_name()
            != s.drop_first()[b].spec_name() by {
            assert(s[a + 1].spec_name() != s[b + 1].spec_name());
        }
        lemma_plugins_remove(s.drop_first(), j - 1, n);
        assert(s[0].spec_name() != n);
        assert((plugins_view(s.drop_first()).remove(n)).insert(s[0].spec_name(), s[0]) =~= (
        plugins_view(s.drop_first()).insert(s[0].spec_name(), s[0])).remove(n));
    }
}

/// Appending a plugin with a fresh name adds exactly that entry to the map.
pub proof fn lemma_plugins_push(s: Seq<Plugin>, p: Plugin)
    requires
        forall|t: int| 0 <= t < s.len() ==> s[t].spec_name() != p.spec_name(),
    ensures
        plugins_view(s.push(p)) == plugins_view(s).insert(p.spec_name(), p),
        names_unique(s) ==> names_unique(s.push(p)),
    decreases s.len(),
{
    if s.len() == 0 {
        assert(s.push(p).drop_first() =~= Seq::<Plugin>::empty());
        assert(s =~= Seq::<Plugin>::empty());
        assert(plugins_view(s.push(p)) == plugins_view(s).insert(p.spec_name(), p));
    } else {
        assert(s.push(p).drop_first() =~= s.drop_first().push(p));
        assert forall|t: int| 0 <= t < s.drop_first().len() implies s.drop_first()[t].spec_name()
            != p.spec_name() by {
            assert(s[t + 1].spec_name() != p.spec_name());
        }
        lemma_plugins_push(s.drop_first(), p);
        assert(s.push(p)[0] == s[0]);
        assert((plugins_view(s.drop_first()).insert(p.spec_name(), p)).insert(
            s[0].spec_name(),
            s[0],
        ) =~= (plugins_view(s.drop_first()).insert(s[0].spec_name(), s[0])).insert(
            p.spec_name(),
            p,
        ));
    }
    if names_unique(s) {
        assert forall|a: int, b: int|
            0 <= a < b < s.push(p).len() implies s.push(p)[a].spec_name() != s.push(
            p,
        )[b].spec_name() by {
            if b < s.len() {
                assert(s[a].spec_name() != s[b].spec_name());
            } else {
                assert(s[a].spec_name() != p.spec_name());
            }
        }
    }
}

/// The outcome of a dispatch call: the value returned to the caller and the
/// shared states left behind.
pub struct DispatchOutcome {
    pub result: Result<Seq<u8>, ErrorView>,
    pub states: Map<u64, Map<u64, Seq<u8>>>,
}

/// The model of a dispatch return value.
pub open spec fn res_view(r: Result<Vec<u8>, DispatchError>) -> Result<Seq<u8>, ErrorView> {
    match r {
        Ok(b) => Ok(b@),
        Err(e) => Err(e@),
    }
}

/// What one dispatch call returns and how it leaves the shared states:
/// resolve the plugin by name, resolve the command code within that plugin,
/// decode the request against the handler's declared request shape, resolve
/// the plugin's state key to a live subsystem, invoke the handler, and
/// encode its response; each step that fails reports its own error kind and
/// leaves every state untouched, and a handler failure passes through
/// unchanged.
pub open spec fn spec_dispatch(
    ps: Map<Seq<char>, Plugin>,
    sts: Map<u64, Map<u64, Seq<u8>>>,
    name: Seq<char>,
    code: u64,
    bytes: Seq<u8>,
) -> DispatchOutcome {
    if !ps.contains_key(name) {
        DispatchOutcome { result: Err(ErrorView::PluginNotFound), states: sts }
    } else {
        let p = ps[name];
        if !p.spec_handlers().contains_key(code) {
            DispatchOutcome { result: Err(ErrorView::CommandNotFound), states: sts }
        } else {
            let h = p.spec_handlers()[code];
            match spec_decode_request(h.spec_request_tag(), bytes) {
                None => DispatchOutcome { result: Err(ErrorView::DecodeError), states: sts },
                Some(req) => match p.spec_state() {
                    None => DispatchOutcome {
                        result: Err(ErrorView::StateUnavailable),
                        states: sts,
                    },
                    Some(key) => if !sts.contains_key(key) {
                        DispatchOutcome { result: Err(ErrorView::StateUnavailable), states: sts }
                    } else {
                        let res = spec_run_result(h, req, sts[key]);
                        let sts2 = sts.insert(key, spec_run_records(h, req, sts[key]));
                        match res {
                            Ok(resp) => DispatchOutcome {
                                result: Ok(spec_encode_response(resp)),
                                states: sts2,
                            },
                            Err(e) => DispatchOutcome { result: Err(e), states: sts2 },
                        }
                    },
                },
            }
        }
    }
}

/// Routing-order law: an unknown plugin name yields `PluginNotFound`,
/// whatever the command code and payload — the plugin lookup precedes the
/// command lookup, never the reverse — and every state is left untouched.
pub proof fn lemma_unknown_plugin(
    ps: Map<Seq<char>, Plugin>,
    sts: Map<u64, Map<u64, Seq<u8>>>,
    name: Seq<char>,
    code: u64,
    bytes: Seq<u8>,
)
    requires
        !ps.contains_key(name),
    ensures
        spec_dispatch(ps, sts, name, code, bytes).result == Err::<Seq<u8>, ErrorView>(
            ErrorView::PluginNotFound,
        ),
        spec_dispatch(ps, sts, name, code, bytes).states == sts,
{
}

/// A command code not registered on a known plugin yields `CommandNotFound`,
/// whatever the payload; every state is left untouched.
pub proof fn lemma_unknown_command(
    ps: Map<Seq<char>, Plugin>,
    sts: Map<u64, Map<u64, Seq<u8>>>,
    name: Seq<char>,
    code: u64,
    bytes: Seq<u8>,
)
    requires
        ps.contains_key(name),
        !ps[name].spec_handlers().contains_key(code),
    ensures
        spec_dispatch(ps, sts, name, code, bytes).result == Err::<Seq<u8>, ErrorView>(
            ErrorView::CommandNotFound,
        ),
        spec_dispatch(ps, sts, name, code, bytes).states == sts,
{
}

/// A request that does not decode to the handler's declared request shape
/// yields `DecodeError` and the handler body never runs: every state is left
/// untouched, whichever handler is registered.
pub proof fn lemma_undecodable_request(
    ps: Map<Seq<char>, Plugin>,
    sts: Map<u64, Map<u64, Seq<u8>>>,
    name: Seq<char>,
    code: u64,
    bytes: Seq<u8>,
)
    requires
        ps.contains_key(name),
        ps[name].spec_handlers().contains_key(code),
        spec_decode_request(
            ps[name].spec_handlers()[code].spec_request_tag(),
            bytes,
        ) is None,
    ensures
        spec_dispatch(ps, sts, name, code, bytes).result == Err::<Seq<u8>, ErrorView>(
            ErrorView::DecodeError,
        ),
        spec_dispatch(ps, sts, name, code, bytes).states == sts,
{
}

/// A shared-state reference that no longer resolves to a live subsystem
/// yields `StateUnavailable` and no handler body executes: every state is
/// left untouched.
pub proof fn lemma_state_unavailable(
    ps: Map<Seq<char>, Plugin>,
    sts: Map<u64, Map<u64, Seq<u8>>>,
    name: Seq<char>,
    code: u64,
    bytes: Seq<u8>,
)
    requires
        ps.contains_key(name),
        ps[name].spec_handlers().contains_key(code),
        spec_decode_request(
            ps[name].spec_handlers()[code].spec_request_tag(),
            bytes,
        ) is Some,
        match ps[name].spec_state() {
            None => true,
            Some(key) => !sts.contains_key(key),
        },
    ensures
        spec_dispatch(ps, sts, name, code, bytes).result == Err::<Seq<u8>, ErrorView>(
            ErrorView::StateUnavailable,
        ),
        spec_dispatch(ps, sts, name, code, bytes).states == sts,
{
}

/// Business failures pass through verbatim: when every routing step
/// resolves and the handler itself reports an error, dispatch returns
/// exactly that error, with no wrapping that would obscure its kind.
pub proof fn lemma_handler_error_passthrough(
    ps: Map<Seq<char>, Plugin>,
    sts: Map<u64, Map<u64, Seq<u8>>>,
    name: Seq<char>,
    code: u64,
    bytes: Seq<u8>,
)
    requires
        ps.contains_key(name),
        ps[name].spec_handlers().contains_key(code),
        spec_decode_request(
            ps[name].spec_handlers()[code].spec_request_tag(),
            bytes,
        ) is Some,
        ps[name].spec_state() is Some,
        sts.contains_key(ps[name].spec_state()->0),
        spec_run_result(
            ps[name].spec_handlers()[code],
            spec_decode_request(ps[name].spec_handlers()[code].spec_request_tag(), bytes)->0,
            sts[ps[name].spec_state()->0],
        ) is Err,
    ensures
        spec_dispatch(ps, sts, name, code, bytes).result == Err::<Seq<u8>, ErrorView>(
            spec_run_result(
                ps[name].spec_handlers()[code],
                spec_decode_request(ps[name].spec_handlers()[code].spec_request_tag(), bytes)->0,
                sts[ps[name].spec_state()->0],
            )->Err_0,
        ),
{
}

/// The state key one dispatch call resolves and may write: the plugin's
/// binding when the call reaches the state-resolution step, `None` when it
/// fails earlier. It depends on the registry and the call alone, never on
/// the shared states.
pub open spec fn spec_binding(
    ps: Map<Seq<char>, Plugin>,
    name: Seq<char>,
    code: u64,
    bytes: Seq<u8>,
) -> Option<u64> {
    if ps.contains_key(name) && ps[name].spec_handlers().contains_key(code)
        && spec_decode_request(ps[name].spec_handlers()[code].spec_request_tag(), bytes) is Some {
        ps[name].spec_state()
    } else {
        None
    }
}

/// Independence law for concurrent dispatches: two calls against distinct
/// (plugin, command) pairs whose handlers share no subsystem state — their
/// resolved state bindings differ — give each call the same outcome
/// whichever completes first, and leave the same shared states either way.
pub proof fn lemma_dispatch_independent(
    ps: Map<Seq<char>, Plugin>,
    sts: Map<u64, Map<u64, Seq<u8>>>,
    n1: Seq<char>,
    c1: u64,
    b1: Seq<u8>,
    n2: Seq<char>,
    c2: u64,
    b2: Seq<u8>,
)
    requires
        n1 != n2 || c1 != c2,
        match (spec_binding(ps, n1, c1, b1), spec_binding(ps, n2, c2, b2)) {
            (Some(k1), Some(k2)) => k1 != k2,
            _ => true,
        },
    ensures
        ({
            let o1 = spec_dispatch(ps, sts, n1, c1, b1);
            let o2 = spec_dispatch(ps, sts, n2, c2, b2);
            let o2_after = spec_dispatch(ps, o1.states, n2, c2, b2);
            let o1_after = spec_dispatch(ps, o2.states, n1, c1, b1);
            &&& o2_after.result == o2.result
            &&& o1_after.result == o1.result
            &&& o2_after.states == o1_after.states
        }),
{
    let o1 = spec_dispatch(ps, sts, n1, c1, b1);
    let o2 = spec_dispatch(ps, sts, n2, c2, b2);
    let t1 = spec_binding(ps, n1, c1, b1);
    let t2 = spec_binding(ps, n2, c2, b2);
    match t1 {
        None => {
            assert(o1.states == sts);
            match t2 {
                None => {
                    assert(o2.states == sts);
                },
                Some(k2) => {
                    if sts.contains_key(k2) {
                        assert(spec_dispatch(ps, o2.states, n1, c1, b1).result == o1.result);
                    } else {
                        assert(o2.states == sts);
                    }
                },
            }
        },
        Some(k1) => {
            if !sts.contains_key(k1) {
                assert(o1.states == sts);
                match t2 {
                    None => {
                        assert(o2.states == sts);
                    },
                    Some(k2) => {
                        if sts.contains_key(k2) {
                            assert(o2.states == sts.insert(
                                k2,
                                spec_run_records(
                                    ps[n2].spec_handlers()[c2],
                                    spec_decode_request(
                                        ps[n2].spec_handlers()[c2].spec_request_tag(),
                                        b2,
                                    )->0,
                                    sts[k2],
                                ),
                            ));
                            assert(!o2.states.contains_key(k1));
                            assert(spec_dispatch(ps, o2.states, n1, c1, b1).result == o1.result);
                            assert(spec_dispatch(ps, o2.states, n1, c1, b1).states == o2.states);
                        } else {
                            assert(o2.states == sts);
                        }
                    },
                }
            } else {
                let r1 = spec_run_records(
                    ps[n1].spec_handlers()[c1],
                    spec_decode_request(ps[n1].spec_handlers()[c1].spec_request_tag(), b1)->0,
                    sts[k1],
                );
                assert(o1.states == sts.insert(k1, r1));
                match t2 {
                    None => {
                        assert(o2.states == sts);
                        assert(spec_dispatch(ps, o1.states, n2, c2, b2).result == o2.result);
                        assert(spec_dispatch(ps, o1.states, n2, c2, b2).states == o1.states);
                    },
                    Some(k2) => {
                        assert(o1.states.contains_key(k2) == sts.contains_key(k2));
                        if sts.contains_key(k2) {
                            let r2 = spec_run_records(
                                ps[n2].spec_handlers()[c2],
                                spec_decode_request(
                                    ps[n2].spec_handlers()[c2].spec_request_tag(),
                                    b2,
                                )->0,
                                sts[k2],
                            );
                            assert(o1.states[k2] == sts[k2]);
                            assert(o2.states == sts.insert(k2, r2));
                            assert(o2.states[k1] == sts[k1]);
                            assert(spec_dispatch(ps, o1.states, n2, c2, b2).result == o2.result);
                            assert(spec_dispatch(ps, o2.states, n1, c1, b1).result == o1.result);
                            assert(spec_dispatch(ps, o1.states, n2, c2, b2).states == o1.states.insert(
                                k2,
                                r2,
                            ));
                            assert(spec_dispatch(ps, o2.states, n1, c1, b1).states == o2.states.insert(
                                k1,
                                r1,
                            ));
                            assert(sts.insert(k1, r1).insert(k2, r2) =~= sts.insert(k2, r2).insert(
                                k1,
                                r1,
                            ));
                        } else {
                            assert(o2.states == sts);
                            assert(!o1.states.contains_key(k2));
                            assert(spec_dispatch(ps, o1.states, n2, c2, b2).result == o2.result);
                            assert(spec_dispatch(ps, o1.states, n2, c2, b2).states == o1.states);
                        }
                    },
                }
            }
        },
    }
}

/// The process-wide registry of installed plugins.
pub struct Dispatcher {
    pub plugins: Vec<Plugin>,
}

impl View for Dispatcher {
    type V = Map<Seq<char>, Plugin>;

    open spec fn view(&self) -> Map<Seq<char>, Plugin> {
        plugins_view(self.plugins@)
    }
}

impl Dispatcher {
    /// Plugin names are pairwise distinct.
    pub open spec fn wf(self) -> bool {
        names_unique(self.plugins@)
    }

    /// A dispatcher with no plugin installed.
    pub fn new() -> (d: Dispatcher)
        ensures
            d@ == Map::<Seq<char>, Plugin>::empty(),
            d.wf(),
    {
        let d = Dispatcher { plugins: Vec::new() };
        proof {
            assert(d@ =~= Map::<Seq<char>, Plugin>::empty());
        }
        d
    }

    /// Installs a plugin; a plugin previously installed under the same name
    /// is replaced whole.
    pub fn install(&mut self, p: Plugin)
        requires
            old(self).wf(),
        ensures
            final(self).wf(),
            final(self)@ == old(self)@.insert(p.spec_name(), p),
    {
        let mut i: usize = 0;
        while i < self.plugins.len()
            invariant
                i <= self.plugins@.len(),
                self.plugins@ == old(self).plugins@,
                names_unique(old(self).plugins@),
                forall|j: int| 0 <= j < i ==> self.plugins@[j].spec_name() != p.spec_name(),
            decreases self.plugins@.len() - i,
        {
            if self.plugins[i].name == p.name {
                proof {
                    lemma_plugins_remove(old(self).plugins@, i as int, p.spec_name());
                }
                let _ = self.plugins.remove(i);
                proof {
                    old(self).plugins@.remove_ensures(i as int);
                    assert forall|x: int|
                        0 <= x < self.plugins@.len() implies self.plugins@[x].spec_name()
                        != p.spec_name() by {
                        if x < i {
                            assert(old(self).plugins@[x].spec_name() != p.spec_name());
                        } else {
                            assert(old(self).plugins@[i as int].spec_name() != old(
                                self,
                            ).plugins@[x + 1].spec_name());
                        }
                    }
                    lemma_plugins_push(self.plugins@, p);
                }
                self.plugins.push(p);
                proof {
                    assert(plugins_view(self.plugins@) =~= plugins_view(old(self).plugins@).insert(
                        p.spec_name(),
                        p,
                    ));
                }
                return ;
            }
            i = i + 1;
        }
        proof {
            lemma_plugins_push(self.plugins@, p);
        }
        self.plugins.push(p);
        proof {
            assert(plugins_view(self.plugins@) =~= plugins_view(old(self).plugins@).insert(
                p.spec_name(),
                p,
            ));
        }
    }

    /// Uninstalls the plugin of a name, removing its whole command mapping
    /// atomically; without one installed, the registry is unchanged.
    pub fn uninstall(&mut self, name: &String)
        requires
            old(self).wf(),
        ensures
            final(self).wf(),
            final(self)@ == old(self)@.remove(name@),
    {
        let mut i: usize = 0;
        while i < self.plugins.len()
            invariant
                i <= self.plugins@.len(),
                self.plugins@ == old(self).plugins@,
                names_unique(old(self).plugins@),
                forall|j: int| 0 <= j < i ==> self.plugins@[j].spec_name() != name@,
            decreases self.plugins@.len() - i,
        {
            if self.plugins[i].name == *name {
                proof {
                    lemma_plugins_remove(old(self).plugins@, i as int, name@);
                }
                let _ = self.plugins.remove(i);
                return ;
            }
            i = i + 1;
        }
        proof {
            lemma_plugins_absent(self.plugins@, name@);
            assert(plugins_view(self.plugins@) =~= plugins_view(self.plugins@).remove(name@));
        }
    }

    /// Resolves a plugin name to the installed plugin.
    pub fn find_plugin(&self, name: &String) -> (r: Option<&Plugin>)
        ensures
            match r {
                Some(p) => self@.contains_key(name@) && *p == self@[name@],
                None => !self@.contains_key(name@),
            },
    {
        let mut i: usize = 0;
        while i < self.plugins.len()
            invariant
                i <= self.plugins@.len(),
                forall|j: int| 0 <= j < i ==> self.plugins@[j].spec_name() != name@,
            decreases self.plugins@.len() - i,
        {
            let p = &self.plugins[i];
            if p.name == *name {
                proof {
                    lemma_plugins_found(self.plugins@, i as int, name@);
                }
                return Some(p);
            }
            i = i + 1;
        }
        proof {
            lemma_plugins_absent(self.plugins@, name@);
        }
        None
    }

    /// The single call surface: routes (plugin name, command code, request
    /// bytes) to the registered handler and hands back the encoded response
    /// or the typed error, exactly as `spec_dispatch` says. Invokes at most
    /// one handler, exactly once.
    pub fn dispatch(&self, states: &mut StateRegistry, name: &String, code: u64, request: &Vec<
        u8,
    >) -> (r: Result<Vec<u8>, DispatchError>)
        requires
            old(states).wf(),
        ensures
            final(states).wf(),
            res_view(r) == spec_dispatch(self@, old(states)@, name@, code, request@).result,
            final(states)@ == spec_dispatch(self@, old(states)@, name@, code, request@).states,
    {
        let p = match self.find_plugin(name) {
            Some(p) => p,
            None => {
                return Err(DispatchError::PluginNotFound);
            },
        };
        let h = match table_get(&p.handlers, code) {
            Some(h) => h,
            None => {
                return Err(DispatchError::CommandNotFound);
            },
        };
        let tag = h.request_tag();
        let req = match decode_request(tag, request) {
            Some(req) => req,
            None => {
                return Err(DispatchError::DecodeError);
            },
        };
        let key = match p.state {
            Some(k) => k,
            None => {
                return Err(DispatchError::StateUnavailable);
            },
        };
        let mut sub = match states.remove_state(key) {
            Some(s) => s,
            None => {
                return Err(DispatchError::StateUnavailable);
            },
        };
        let ghost reqv = opt_view(req);
        let res = run_handler(h, req, &mut sub);
        states.register_state(key, sub);
        proof {
            assert(states@ =~= old(states)@.insert(
                key,
                spec_run_records(*h, reqv, old(states)@[key]),
            ));
        }
        match res {
            Ok(resp) => Ok(encode_response(resp)),
            Err(e) => Err(e),
        }
    }
}

} // verus!
