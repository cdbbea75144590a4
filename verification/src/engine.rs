//! The trusted boundary around the execution engine (the `wasmtime` crate).
//!
//! Everything the core needs from the engine — compiling bytes, instantiating
//! a compiled module, enumerating imports and exports, and invoking a function
//! handle — crosses through the declarations and wrappers in this file, and
//! nowhere else. The engine panics when a handle is used with a store that did
//! not create it, so every wrapper demands, through the ghost store identity
//! of [`crate::host`], that its handles and its context belong to one store,
//! and tags every handle it creates with the identity of the creating context.

use vstd::pervasive::arbitrary;
use vstd::prelude::*;
use wasmtime::AsContextMut;

use crate::exports::ExportEntry;
use crate::host::{FuncHandle, HostContext};
use crate::registry::Registry;
use crate::values::{ExportKind, Value};

verus! {

#[verifier::external_type_specification]
#[verifier::external_body]
pub struct ExWasmModule(wasmtime::Module);

#[verifier::external_type_specification]
#[verifier::external_body]
#[verifier::reject_recursive_types(T)]
pub struct ExStore<T: 'static>(wasmtime::Store<T>);

#[verifier::external_type_specification]
#[verifier::external_body]
#[verifier::reject_recursive_types(T)]
pub struct ExStoreContextMut<'a, T: 'static>(wasmtime::StoreContextMut<'a, T>);

#[verifier::external_type_specification]
#[verifier::external_body]
pub struct ExInstance(wasmtime::Instance);

#[verifier::external_type_specification]
#[verifier::external_body]
pub struct ExFunc(wasmtime::Func);

#[verifier::external_type_specification]
#[verifier::external_body]
pub struct ExFuncType(wasmtime::FuncType);

#[verifier::external_type_specification]
#[verifier::external_body]
pub struct ExVal(wasmtime::Val);

/// A compiled module, tagged with the store whose engine compiled it.
pub(crate) struct CompiledModule {
    pub(crate) module: wasmtime::Module,
    pub(crate) tag: Ghost<int>,
}

impl CompiledModule {
    pub closed spec fn store_id(self) -> int {
        self.tag@
    }
}

/// An import's declared function signature, tagged with its store.
pub(crate) struct FuncTypeHandle {
    pub(crate) ty: wasmtime::FuncType,
    pub(crate) tag: Ghost<int>,
}

impl FuncTypeHandle {
    pub closed spec fn store_id(self) -> int {
        self.tag@
    }
}

/// An instantiated unit, tagged with the store it lives in.
pub(crate) struct InstanceHandle {
    pub(crate) instance: wasmtime::Instance,
    pub(crate) tag: Ghost<int>,
}

impl InstanceHandle {
    pub closed spec fn store_id(self) -> int {
        self.tag@
    }
}

/// Relies on `wasmtime::Module::new`: parses, validates and compiles a binary
/// module from bytes, using the engine of the given context's store. Invalid
/// or rejected bytes are an error, never a panic.
#[verifier::external_body]
pub(crate) fn compile(ctx: &mut HostContext<'_>, bytes: &Vec<u8>) -> (r: Result<
    CompiledModule,
    String,
>)
    ensures
        final(ctx).id() == old(ctx).id(),
        r matches Ok(m) ==> m.store_id() == old(ctx).id(),
{
    match wasmtime::Module::new(ctx.inner.engine(), bytes.as_slice()) {
        Ok(module) => Ok(CompiledModule { module, tag: Ghost(arbitrary()) }),
        Err(e) => Err(format!("{e:#}")),
    }
}

/// Relies on `wasmtime::Module::imports`: the module's declared imports in
/// declaration order. A function import is handed out as its target module
/// name, field name and signature — the signature belongs to the module's
/// store — and any other import kind becomes `None`.
#[verifier::external_body]
pub(crate) fn func_imports(m: &CompiledModule) -> (r: Vec<
    Option<(String, String, FuncTypeHandle)>,
>)
    ensures
        forall|i: int|
            0 <= i < r@.len() ==> (#[trigger] r@[i] matches Some(t) ==> t.2.store_id()
                == m.store_id()),
{
    m.module.imports().map(|imp| match imp.ty() {
        wasmtime::ExternType::Func(ft) => Some(
            (
                imp.module().to_owned(),
                imp.name().to_owned(),
                FuncTypeHandle { ty: ft, tag: Ghost(arbitrary()) },
            ),
        ),
        _ => None,
    }).collect()
}

/// Relies on `wasmtime::Instance::new`: instantiates the compiled module with
/// the given function imports, supplied positionally in declaration order, and
/// runs its start section. With module and imports all of the context's store,
/// a signature mismatch or a trapping start function is an error, not a panic.
#[verifier::external_body]
pub(crate) fn instantiate(
    ctx: &mut HostContext<'_>,
    m: &CompiledModule,
    imports: &Vec<FuncHandle>,
) -> (r: Result<InstanceHandle, String>)
    requires
        m.store_id() == old(ctx).id(),
        forall|i: int| 0 <= i < imports@.len() ==> imports@[i].store_id() == old(ctx).id(),
    ensures
        final(ctx).id() == old(ctx).id(),
        r matches Ok(inst) ==> inst.store_id() == old(ctx).id(),
{
    let externs: Vec<wasmtime::Extern> =
        imports.iter().map(|f| wasmtime::Extern::Func(f.func)).collect();
    match wasmtime::Instance::new(&mut ctx.inner, &m.module, &externs) {
        Ok(instance) => Ok(InstanceHandle { instance, tag: Ghost(arbitrary()) }),
        Err(e) => Err(format!("{e:#}")),
    }
}

/// Relies on `wasmtime::Instance::exports`: the instantiated module's exports
/// in export-list order, for an instance of the context's store. Module
/// validation guarantees export names are unique within one module; the index
/// recorded is the export's list position, and a handle of the same store is
/// attached exactly to the function exports.
#[verifier::external_body]
pub(crate) fn export_handles(ctx: &mut HostContext<'_>, inst: &InstanceHandle) -> (r: Vec<
    ExportEntry,
>)
    requires
        inst.store_id() == old(ctx).id(),
    ensures
        final(ctx).id() == old(ctx).id(),
        forall|i: int, j: int| 0 <= i < j < r@.len() ==> r@[i].name@ != r@[j].name@,
        forall|i: int| 0 <= i < r@.len() ==> r@[i].index == i,
        forall|i: int|
            0 <= i < r@.len() ==> ((r@[i].kind == ExportKind::Function) <==> r@[i].handle
                is Some),
        forall|i: int|
            0 <= i < r@.len() ==> (#[trigger] r@[i].handle matches Some(h) ==> h.store_id()
                == old(ctx).id()),
{
    inst.instance.exports(&mut ctx.inner).enumerate().map(|(index, e)| {
        let name = e.name().to_owned();
        let (kind, handle) = match e.into_extern() {
            wasmtime::Extern::Func(func) => (
                ExportKind::Function,
                Some(FuncHandle { func, tag: Ghost(arbitrary()) }),
            ),
            wasmtime::Extern::Global(_) => (ExportKind::Global, None),
            wasmtime::Extern::Table(_) => (ExportKind::Table, None),
            wasmtime::Extern::Memory(_) => (ExportKind::Memory, None),
            _ => (ExportKind::Other, None),
        };
        ExportEntry { name, index, kind, handle }
    }).collect()
}

/// Relies on `wasmtime::Func::new`: wraps a host closure of the given type —
/// a type of the context's store, so the engine accepts it — as an engine
/// function of that store. The closure is a late-binding trampoline for one
/// unresolved import: on every invocation it re-resolves the captured
/// `(module_name, func_name)` pair against the registry — it caches no
/// resolved target — and dispatches, writing the produced values into the
/// result slots the engine supplies (their count is the import's declared
/// result arity) and translating any failure into an engine trap. The context
/// the closure receives from the engine views the very store the trampoline
/// was created in, which is the registry's store.
#[verifier::external_body]
pub(crate) fn make_trampoline(
    ctx: &mut HostContext<'_>,
    ty: &FuncTypeHandle,
    registry: Registry,
    module_name: String,
    func_name: String,
) -> (f: FuncHandle)
    requires
        registry.wf(),
        registry.store_id() == old(ctx).id(),
        ty.store_id() == old(ctx).id(),
    ensures
        final(ctx).id() == old(ctx).id(),
        f.store_id() == old(ctx).id(),
{
    let arity = ty.ty.results().len();
    let func = wasmtime::Func::new(&mut ctx.inner, ty.ty.clone(), move |mut caller, params, results| {
        let mut c = HostContext { inner: caller.as_context_mut(), tag: Ghost(arbitrary()) };
        let route = crate::loader::route_import(&mut c, &registry, &module_name, &func_name, arity, params);
        match route {
            Ok(vals) => {
                results.clone_from_slice(&vals);
                Ok(())
            },
            Err(msg) => Err(wasmtime::Error::msg(msg)),
        }
    });
    FuncHandle { func, tag: Ghost(arbitrary()) }
}

/// Relies on `wasmtime::Val`'s representation: each scalar kind carries its
/// payload (floats as raw bits), converted one for one.
#[verifier::external_body]
pub(crate) fn values_to_vals(vs: &Vec<Value>) -> (r: Vec<wasmtime::Val>)
    ensures
        r@.len() == vs@.len(),
{
    vs.iter().map(|v| match v {
        Value::I32(x) => wasmtime::Val::I32(*x),
        Value::I64(x) => wasmtime::Val::I64(*x),
        Value::F32Bits(x) => wasmtime::Val::F32(*x),
        Value::F64Bits(x) => wasmtime::Val::F64(*x),
    }).collect()
}

/// Relies on `wasmtime::Val`'s representation, in the other direction. `None`
/// when some value is not one of the four scalar kinds the core carries.
#[verifier::external_body]
pub(crate) fn vals_to_values(vs: &[wasmtime::Val]) -> (r: Option<Vec<Value>>)
    ensures
        r matches Some(values) ==> values@.len() == vs@.len(),
{
    vs.iter().map(|v| match v {
        wasmtime::Val::I32(x) => Some(Value::I32(*x)),
        wasmtime::Val::I64(x) => Some(Value::I64(*x)),
        wasmtime::Val::F32(x) => Some(Value::F32Bits(*x)),
        wasmtime::Val::F64(x) => Some(Value::F64Bits(*x)),
        _ => None,
    }).collect()
}

/// Relies on `wasmtime::Func::call` (and `Func::ty` for the result arity):
/// runs a function of the context's store with the given scalars and returns
/// what it produced, or the engine's account of the trap or type mismatch it
/// raised — an error, not a panic, since function and store match. An error
/// leaves no values behind; the call is never retried.
#[verifier::external_body]
pub(crate) fn call_func(ctx: &mut HostContext<'_>, f: &FuncHandle, args: &Vec<Value>) -> (r:
    Result<Vec<Value>, String>)
    requires
        f.store_id() == old(ctx).id(),
    ensures
        final(ctx).id() == old(ctx).id(),
{
    let params = values_to_vals(args);
    let n = f.func.ty(&mut ctx.inner).results().len();
    let mut results = vec![wasmtime::Val::I32(0); n];
    match f.func.call(&mut ctx.inner, &params, &mut results) {
        Ok(()) => match vals_to_values(&results) {
            Some(values) => Ok(values),
            None => Err("unsupported result value kind".to_owned()),
        },
        Err(e) => Err(format!("{e:#}")),
    }
}

} // verus!
