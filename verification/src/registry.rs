use std::sync::Arc;
use vstd::prelude::*;
use vstd::rwlock::{RwLock, RwLockPredicate};

use crate::host::{Host, HostContext};
use crate::server::Server;
use crate::values::{CallError, ConcurrencyError, ExportKind, Value};

verus! {

/// The invariant the registry's shared guard maintains on the server
/// sequence: every server in it is well-formed and lives in the registry's
/// store.
pub struct ServersInv {
    pub sid: int,
}

impl RwLockPredicate<Vec<Server>> for ServersInv {
    open spec fn inv(self, v: Vec<Server>) -> bool {
        forall|i: int|
            0 <= i < v@.len() ==> ((#[trigger] v@[i]).wf() && v@[i].in_store(self.sid))
    }
}

/// The shared, growable collection of all servers in the process. Appended to
/// behind a reader-writer guard — many concurrent resolutions, one writer at a
/// time — and never shrunk: the order of insertion determines resolution
/// priority. Every handle obtained through `share` refers to the same
/// underlying sequence.
pub struct Registry {
    servers: Arc<RwLock<Vec<Server>, ServersInv>>,
    tag: Ghost<int>,
}

/// Whether some server in the sequence provides the module name `n`.
pub open spec fn has_provider(servers: Seq<Server>, n: Seq<char>) -> bool {
    exists|i: int| 0 <= i < servers.len() && servers[i].has_module(n)
}

/// The position of the earliest-added server that provides `n` (meaningful
/// only when `has_provider(servers, n)`): resolution scans in insertion order
/// and the first match wins.
pub open spec fn first_provider(servers: Seq<Server>, n: Seq<char>) -> int
    decreases servers.len(),
{
    if servers.len() == 0 {
        0
    } else if servers[0].has_module(n) {
        0
    } else {
        1 + first_provider(servers.skip(1), n)
    }
}

/// Resolution is deterministic and stable: if server `i` provides `n` and no
/// server added before it does, then `i` is the provider every resolution
/// selects, regardless of what was added after it.
pub proof fn lemma_first_provider_is_first(servers: Seq<Server>, n: Seq<char>, i: int)
    requires
        0 <= i < servers.len(),
        servers[i].has_module(n),
        forall|j: int| 0 <= j < i ==> !servers[j].has_module(n),
    ensures
        has_provider(servers, n),
        first_provider(servers, n) == i,
    decreases i,
{
    if i == 0 {
    } else {
        assert(!servers[0].has_module(n));
        let rest = servers.skip(1);
        assert(rest[i - 1] == servers[i]);
        assert(forall|j: int| 0 <= j < i - 1 ==> rest[j] == servers[j + 1]);
        lemma_first_provider_is_first(rest, n, i - 1);
    }
}

/// Appending a server loses nothing: every name resolvable before resolves to
/// the same provider afterwards, and a name the new server provides becomes
/// resolvable — to the new server, if nobody provided it before.
pub proof fn lemma_added_server_visible(servers: Seq<Server>, s: Server, n: Seq<char>)
    ensures
        servers.push(s).len() == servers.len() + 1,
        has_provider(servers, n) ==> has_provider(servers.push(s), n)
            && first_provider(servers.push(s), n) == first_provider(servers, n),
        s.has_module(n) ==> has_provider(servers.push(s), n),
        (s.has_module(n) && !has_provider(servers, n)) ==> first_provider(
            servers.push(s),
            n,
        ) == servers.len(),
{
    let grown = servers.push(s);
    assert(forall|j: int| 0 <= j < servers.len() ==> grown[j] == servers[j]);
    assert(grown[servers.len() as int] == s);
    if has_provider(servers, n) {
        let w = choose|i: int| 0 <= i < servers.len() && servers[i].has_module(n);
        let f = least_provider(servers, n, w);
        lemma_first_provider_is_first(servers, n, f);
        lemma_first_provider_is_first(grown, n, f);
    } else if s.has_module(n) {
        assert(forall|j: int|
            0 <= j < servers.len() ==> !#[trigger] grown[j].has_module(n));
        lemma_first_provider_is_first(grown, n, servers.len() as int);
    }
}

/// The least index at or below `w` whose server provides `n`.
proof fn least_provider(servers: Seq<Server>, n: Seq<char>, w: int) -> (f: int)
    requires
        0 <= w < servers.len(),
        servers[w].has_module(n),
    ensures
        0 <= f < servers.len(),
        servers[f].has_module(n),
        forall|j: int| 0 <= j < f ==> !servers[j].has_module(n),
    decreases w,
{
    if exists|j: int| 0 <= j < w && servers[j].has_module(n) {
        let w2 = choose|j: int| 0 <= j < w && servers[j].has_module(n);
        least_provider(servers, n, w2)
    } else {
        w
    }
}

/// Resolution against a fixed server sequence: a linear scan in insertion
/// order; the first server whose mapping contains `module` wins, and the call
/// is delegated to that server's module. `ModuleNotFound` exactly when no
/// server provides the name; otherwise the outcome is the winning module's —
/// `FunctionNotFound` exactly when it lacks the export, `NotCallable` exactly
/// when the export is not a function, and otherwise the function's produced
/// values or the engine fault it raised. It never deadlocks, panics, or
/// returns an unrelated error.
pub fn run_in(
    servers: &Vec<Server>,
    ctx: &mut HostContext<'_>,
    module: &String,
    function: &String,
    args: &Vec<Value>,
) -> (r: Result<Vec<Value>, CallError>)
    requires
        forall|i: int| 0 <= i < servers@.len() ==> (#[trigger] servers@[i]).wf(),
        forall|i: int| 0 <= i < servers@.len() ==> servers@[i].in_store(old(ctx).id()),
    ensures
        final(ctx).id() == old(ctx).id(),
        (r matches Err(CallError::ModuleNotFound)) <==> !has_provider(servers@, module@),
        has_provider(servers@, module@) ==> ({
            let m = servers@[first_provider(servers@, module@)].module_for(module@);
            &&& ((r matches Err(CallError::FunctionNotFound)) <==> !m.has_export(function@))
            &&& ((r matches Err(CallError::NotCallable)) <==> (m.has_export(function@)
                && m.export_kind(function@) != ExportKind::Function))
            &&& ((m.has_export(function@) && m.export_kind(function@) == ExportKind::Function)
                ==> (r matches Ok(_) || r matches Err(CallError::ExecutionFault(_))))
            &&& (r matches Ok(_) ==> m.has_export(function@) && m.export_kind(function@)
                == ExportKind::Function)
        }),
        !(r matches Err(CallError::IndexInvalid)),
        !(r matches Err(CallError::SignatureMismatch)),
{
    let n = servers.len();
    let mut i: usize = 0;
    while i < n
        invariant
            n == servers@.len(),
            0 <= i <= n,
            ctx.id() == old(ctx).id(),
            forall|k: int| 0 <= k < servers@.len() ==> (#[trigger] servers@[k]).wf(),
            forall|k: int| 0 <= k < servers@.len() ==> servers@[k].in_store(old(ctx).id()),
            forall|j: int| 0 <= j < i ==> !servers@[j].has_module(module@),
        decreases n - i,
    {
        let s = &servers[i];
        match s.get(module) {
            Some(m) => {
                proof {
                    lemma_first_provider_is_first(servers@, module@, i as int);
                    let k = servers@[i as int].idx_of(module@);
                    assert(servers@[i as int].entries_spec()[k].1.in_store(old(ctx).id()));
                }
                return m.run(ctx, function, args);
            },
            None => {},
        }
        i = i + 1;
    }
    Err(CallError::ModuleNotFound)
}

impl Registry {
    /// The identity of the one store all this registry's modules live in.
    pub closed spec fn store_id(self) -> int {
        self.tag@
    }

    /// Well-formedness: the shared guard carries the server-sequence
    /// invariant, keyed to this registry's store.
    pub closed spec fn wf(self) -> bool {
        (*self.servers).pred() == (ServersInv { sid: self.tag@ })
    }

    /// An empty registry for the given host: created once at startup, before
    /// any server is added. Every server it will hold must live in that
    /// host's store.
    pub fn new(host: &Host) -> (r: Registry)
        ensures
            r.wf(),
            r.store_id() == host.id(),
    {
        let servers: Vec<Server> = Vec::new();
        Registry {
            servers: Arc::new(RwLock::new(servers, Ghost(ServersInv { sid: host.id() }))),
            tag: Ghost(host.id()),
        }
    }

    /// Relies on `std::sync::Arc::clone`: the clone shares the same
    /// allocation, so both handles watch and grow the same server sequence.
    /// This is how a handle reaches every component that resolves through the
    /// registry, the import trampolines included.
    #[verifier::external_body]
    pub fn share(&self) -> (r: Registry)
        ensures
            r == *self,
    {
        Registry { servers: Arc::clone(&self.servers), tag: self.tag }
    }

    /// Appends a server; the effect is visible to every resolution that starts
    /// after this returns. The guard in use cannot be poisoned by a failed
    /// writer, so the append always succeeds.
    pub fn add(&self, server: Server) -> (r: Result<(), ConcurrencyError>)
        requires
            self.wf(),
            server.wf(),
            server.in_store(self.store_id()),
        ensures
            r matches Ok(_),
    {
        let lock = &*self.servers;
        let (mut servers, handle) = lock.acquire_write();
        servers.push(server);
        handle.release_write(servers);
        Ok(())
    }

    /// Acquires a read view of the server sequence and resolves
    /// `(module, function, args)` against it, as `run_in` specifies; the view
    /// taken is whatever the sequence holds when the read begins. Resolution
    /// only ever takes read access, so call chains that re-enter the registry
    /// (a module calling through its import trampoline) cannot deadlock.
    pub fn run(
        &self,
        ctx: &mut HostContext<'_>,
        module: &String,
        function: &String,
        args: &Vec<Value>,
    ) -> (r: Result<Vec<Value>, CallError>)
        requires
            self.wf(),
            old(ctx).id() == self.store_id(),
        ensures
            final(ctx).id() == old(ctx).id(),
            !(r matches Err(CallError::IndexInvalid)),
            !(r matches Err(CallError::SignatureMismatch)),
    {
        let lock = &*self.servers;
        let read = lock.acquire_read();
        let servers = read.borrow();
        let r = run_in(servers, ctx, module, function, args);
        read.release_read();
        r
    }
}

} // verus!
