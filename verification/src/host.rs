//! The store a host runtime runs in, and the ghost identity that ties every
//! engine handle to it.
//!
//! The engine panics when a handle (a compiled module, an instance, a
//! function) is used with a store that did not create it. To rule that out by
//! contract, the library owns the store: a [`Host`] carries a ghost store
//! identity, every context borrowed from it carries the same identity, and
//! every handle the trusted boundary hands out is tagged with the identity of
//! the context that created it. Each trusted call demands that the tags
//! match, so verified code can never mix stores.

use vstd::pervasive::arbitrary;
use vstd::prelude::*;
use wasmtime::AsContextMut;

verus! {

/// One engine store, owned by the library. All modules of one registry live
/// in one host; every call is made through a context borrowed from it.
pub struct Host {
    pub(crate) store: wasmtime::Store<()>,
    pub(crate) tag: Ghost<int>,
}

/// A mutable view of a host's store, threaded through compilation,
/// instantiation and every call. Carries the host's store identity.
pub struct HostContext<'a> {
    pub(crate) inner: wasmtime::StoreContextMut<'a, ()>,
    pub(crate) tag: Ghost<int>,
}

/// An engine function handle together with the identity of the store that
/// created it: the only thing the dispatch core ever invokes.
pub struct FuncHandle {
    pub(crate) func: wasmtime::Func,
    pub(crate) tag: Ghost<int>,
}

impl Host {
    /// The identity of this host's store.
    pub closed spec fn id(self) -> int {
        self.tag@
    }

    /// Relies on `wasmtime::Engine::default` and `wasmtime::Store::new`: a
    /// fresh store with the default engine configuration.
    #[verifier::external_body]
    pub fn new() -> (r: Host) {
        let store = wasmtime::Store::new(&wasmtime::Engine::default(), ());
        Host { store, tag: Ghost(arbitrary()) }
    }

    /// Relies on `wasmtime::Config::memory_reservation` /
    /// `memory_guard_size`, `Engine::new` and `Store::new`: a fresh store
    /// whose linear memories reserve only the given address-space budget.
    /// Errors (it does not panic) if the engine rejects the configuration.
    #[verifier::external_body]
    pub fn with_memory_limits(reservation: u64, guard: u64) -> (r: Result<Host, String>) {
        let mut config = wasmtime::Config::new();
        config.memory_reservation(reservation);
        config.memory_guard_size(guard);
        match wasmtime::Engine::new(&config) {
            Ok(engine) => Ok(Host { store: wasmtime::Store::new(&engine, ()), tag: Ghost(arbitrary()) }),
            Err(e) => Err(format!("{e:#}")),
        }
    }

    /// Relies on `wasmtime::Store::as_context_mut`: a context for this very
    /// store, carrying its identity.
    #[verifier::external_body]
    pub fn context(&mut self) -> (r: HostContext<'_>)
        ensures
            r.id() == old(self).id(),
            final(self).id() == old(self).id(),
    {
        HostContext { inner: self.store.as_context_mut(), tag: Ghost(arbitrary()) }
    }
}

impl<'a> HostContext<'a> {
    /// The identity of the store this context views.
    pub closed spec fn id(self) -> int {
        self.tag@
    }
}

impl FuncHandle {
    /// The identity of the store that created this function.
    pub closed spec fn store_id(self) -> int {
        self.tag@
    }
}

} // verus!
