use vstd::prelude::*;

use crate::engine;
use crate::exports::ExportTable;
use crate::host::HostContext;
use crate::values::{CallError, ExportKind, Value};

verus! {

/// One instantiated, sandboxed unit of executable code together with its
/// export table. Immutable after construction: the table is built once from
/// the unit's export list and the function handles inside it are the only way
/// the unit is ever entered.
pub struct LoadedModule {
    pub exports: ExportTable,
}

impl LoadedModule {
    /// Whether some export of this module bears the name `n`.
    pub open spec fn has_export(self, n: Seq<char>) -> bool {
        self.exports.has(n)
    }

    /// The kind of the export named `n` (meaningful only when `has_export(n)`).
    pub open spec fn export_kind(self, n: Seq<char>) -> ExportKind {
        self.exports.kind_of(n)
    }

    pub open spec fn wf(self) -> bool {
        self.exports.wf()
    }

    /// Whether every function handle of this module belongs to the store with
    /// identity `sid`.
    pub open spec fn in_store(self, sid: int) -> bool {
        self.exports.in_store(sid)
    }

    /// Owns the given export table.
    pub fn new(exports: ExportTable) -> (r: LoadedModule)
        requires
            exports.wf(),
        ensures
            r.wf(),
            forall|n: Seq<char>| r.has_export(n) <==> exports.has(n),
            forall|n: Seq<char>| #[trigger] r.export_kind(n) == exports.kind_of(n),
            forall|sid: int| #[trigger] r.in_store(sid) <==> exports.in_store(sid),
    {
        LoadedModule { exports }
    }

    /// Resolves `function` in the export table and invokes it with `args`.
    ///
    /// Exactly one of the following: the name is absent and the call returns
    /// `FunctionNotFound`; the name is bound to a non-function export and the
    /// call returns `NotCallable` without attempting execution; or the export
    /// is a function, which is invoked — the produced values come back, and an
    /// engine trap comes back as `ExecutionFault`. No other error arises, and
    /// a fault is never retried.
    pub fn run(
        &self,
        ctx: &mut HostContext<'_>,
        function: &String,
        args: &Vec<Value>,
    ) -> (r: Result<Vec<Value>, CallError>)
        requires
            self.wf(),
            self.in_store(old(ctx).id()),
        ensures
            final(ctx).id() == old(ctx).id(),
            (r matches Err(CallError::FunctionNotFound)) <==> !self.has_export(function@),
            (r matches Err(CallError::NotCallable)) <==> (self.has_export(function@)
                && self.export_kind(function@) != ExportKind::Function),
            (self.has_export(function@) && self.export_kind(function@) == ExportKind::Function)
                ==> (r matches Ok(_) || r matches Err(CallError::ExecutionFault(_))),
            r matches Ok(_) ==> self.has_export(function@) && self.export_kind(function@)
                == ExportKind::Function,
            !(r matches Err(CallError::ModuleNotFound)),
            !(r matches Err(CallError::IndexInvalid)),
            !(r matches Err(CallError::SignatureMismatch)),
    {
        match self.exports.lookup(function) {
            None => Err(CallError::FunctionNotFound),
            Some(entry) => {
                if entry.kind != ExportKind::Function {
                    return Err(CallError::NotCallable);
                }
                match &entry.handle {
                    Some(f) => match engine::call_func(ctx, f, args) {
                        Ok(values) => Ok(values),
                        Err(detail) => Err(CallError::ExecutionFault(detail)),
                    },
                    None => {
                        // A function-kind entry always carries its handle:
                        // the table invariant rules this arm out.
                        proof {
                            assert(false);
                        }
                        Err(CallError::IndexInvalid)
                    },
                }
            },
        }
    }
}

} // verus!
