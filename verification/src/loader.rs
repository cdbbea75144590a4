use vstd::prelude::*;

use crate::engine;
use crate::exports::ExportTable;
use crate::host::{FuncHandle, HostContext};
use crate::module::LoadedModule;
use crate::registry::Registry;
use crate::server::Server;
use crate::values::{CallError, LinkError, LoadError, ServerError};

verus! {

/// The body of an import trampoline: re-resolves `(module_name, func_name)`
/// against the registry — never a cached target — dispatches with the given
/// parameters, and hands the produced values back in engine form. Any
/// resolution or execution failure comes back as its description, for the
/// trampoline to raise as an engine trap; a parameter outside the supported
/// scalar kinds, or a produced value count differing from the import's
/// declared result arity, is a signature mismatch.
pub fn route_import(
    ctx: &mut HostContext<'_>,
    registry: &Registry,
    module_name: &String,
    func_name: &String,
    result_arity: usize,
    params: &[wasmtime::Val],
) -> (r: Result<Vec<wasmtime::Val>, String>)
    requires
        registry.wf(),
        old(ctx).id() == registry.store_id(),
    ensures
        final(ctx).id() == old(ctx).id(),
        r matches Ok(vals) ==> vals@.len() == result_arity,
{
    let args = match engine::vals_to_values(params) {
        Some(v) => v,
        None => {
            return Err((CallError::SignatureMismatch).describe());
        },
    };
    match registry.run(ctx, module_name, func_name, &args) {
        Ok(results) => {
            if results.len() == result_arity {
                Ok(engine::values_to_vals(&results))
            } else {
                Err((CallError::SignatureMismatch).describe())
            }
        },
        Err(e) => Err(e.describe()),
    }
}

/// Instantiates one compiled module: builds a late-binding trampoline for each
/// declared function import (supplied positionally to instantiation), refuses
/// any other import kind, and assembles the export table from the
/// instantiated unit's export list.
fn instantiate_module(
    ctx: &mut HostContext<'_>,
    registry: &Registry,
    wm: &engine::CompiledModule,
) -> (r: Result<LoadedModule, ServerError>)
    requires
        registry.wf(),
        registry.store_id() == old(ctx).id(),
        wm.store_id() == old(ctx).id(),
    ensures
        final(ctx).id() == old(ctx).id(),
        r matches Ok(m) ==> m.wf() && m.in_store(old(ctx).id()),
{
    let imports = engine::func_imports(wm);
    let n = imports.len();
    let mut funcs: Vec<FuncHandle> = Vec::new();
    let mut i: usize = 0;
    while i < n
        invariant
            n == imports@.len(),
            0 <= i <= n,
            ctx.id() == old(ctx).id(),
            registry.wf(),
            registry.store_id() == old(ctx).id(),
            forall|k: int|
                0 <= k < imports@.len() ==> (#[trigger] imports@[k] matches Some(t)
                    ==> t.2.store_id() == old(ctx).id()),
            forall|k: int| 0 <= k < funcs@.len() ==> (#[trigger] funcs@[k]).store_id()
                == old(ctx).id(),
        decreases n - i,
    {
        match &imports[i] {
            Some(t) => {
                let f = engine::make_trampoline(
                    ctx,
                    &t.2,
                    registry.share(),
                    t.0.clone(),
                    t.1.clone(),
                );
                funcs.push(f);
            },
            None => {
                return Err(ServerError::Link(LinkError::UnsupportedImport));
            },
        }
        i = i + 1;
    }
    let inst = match engine::instantiate(ctx, wm, &funcs) {
        Ok(inst) => inst,
        Err(detail) => {
            return Err(ServerError::Link(LinkError::Instantiation(detail)));
        },
    };
    let entries = engine::export_handles(ctx, &inst);
    let table = ExportTable::new(entries);
    Ok(LoadedModule::new(table))
}

/// Builds a server from (global module-name, module bytes) pairs: each binary
/// is compiled and instantiated — its unresolved imports bound to trampolines
/// that will re-resolve against `registry` at call time — and the server maps
/// exactly the given names to the resulting modules. A parse failure is a
/// `Load` error for this server; an unsupported import or a rejected
/// instantiation is a `Link` error. The names must be distinct: a server's
/// module-names are unique.
pub fn create_server(
    ctx: &mut HostContext<'_>,
    registry: &Registry,
    binaries: &Vec<(String, Vec<u8>)>,
) -> (r: Result<Server, ServerError>)
    requires
        registry.wf(),
        registry.store_id() == old(ctx).id(),
        forall|i: int, j: int|
            0 <= i < j < binaries@.len() ==> binaries@[i].0@ != binaries@[j].0@,
    ensures
        final(ctx).id() == old(ctx).id(),
        r matches Ok(s) ==> ({
            &&& s.wf()
            &&& s.in_store(old(ctx).id())
            &&& forall|i: int|
                0 <= i < binaries@.len() ==> #[trigger] s.has_module(binaries@[i].0@)
            &&& forall|n: Seq<char>|
                #[trigger] s.has_module(n) ==> exists|i: int|
                    0 <= i < binaries@.len() && binaries@[i].0@ == n
        }),
{
    let n = binaries.len();
    let mut mods: Vec<(String, LoadedModule)> = Vec::new();
    let mut i: usize = 0;
    while i < n
        invariant
            n == binaries@.len(),
            0 <= i <= n,
            ctx.id() == old(ctx).id(),
            registry.wf(),
            registry.store_id() == old(ctx).id(),
            forall|a: int, b: int|
                0 <= a < b < binaries@.len() ==> binaries@[a].0@ != binaries@[b].0@,
            mods@.len() == i,
            forall|j: int| 0 <= j < i ==> mods@[j].0@ == binaries@[j].0@,
            forall|j: int| 0 <= j < i ==> (#[trigger] mods@[j].1).wf(),
            forall|j: int| 0 <= j < i ==> (#[trigger] mods@[j].1).in_store(old(ctx).id()),
        decreases n - i,
    {
        let b = &binaries[i];
        let wm = match engine::compile(ctx, &b.1) {
            Ok(w) => w,
            Err(detail) => {
                return Err(ServerError::Load(LoadError { detail }));
            },
        };
        let m = match instantiate_module(ctx, registry, &wm) {
            Ok(m) => m,
            Err(e) => {
                return Err(e);
            },
        };
        mods.push((b.0.clone(), m));
        i = i + 1;
    }
    Ok(Server::new(mods))
}

} // verus!
