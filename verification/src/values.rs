use vstd::prelude::*;

verus! {

/// A tagged scalar passed to and from module calls: one of the four numeric
/// kinds a module can exchange. The two floating-point kinds travel as their
/// raw bit patterns, so the routing core never computes on floats.
#[derive(Clone, Copy, Debug, PartialEq, Eq, Structural)]
pub enum Value {
    I32(i32),
    I64(i64),
    F32Bits(u32),
    F64Bits(u64),
}

/// The kind of a named export of a module. Only `Function` exports can be
/// called; the rest exist so that resolution can refuse them precisely.
#[derive(Clone, Copy, Debug, PartialEq, Eq, Structural)]
pub enum ExportKind {
    Function,
    Global,
    Table,
    Memory,
    Other,
}

/// Why a `(module-name, function-name, args)` call could not produce values.
#[derive(Debug)]
pub enum CallError {
    /// No server in the registry currently provides the requested module name.
    ModuleNotFound,
    /// The module exists but has no export of the requested name.
    FunctionNotFound,
    /// The export table named an entry the instantiated unit no longer has.
    /// An internal-consistency failure; dispatch proves it never arises.
    IndexInvalid,
    /// The named export exists but is not a function.
    NotCallable,
    /// The resolved function's arity does not match the caller's declared
    /// import signature, or a value kind outside the supported scalars crossed
    /// the boundary.
    SignatureMismatch,
    /// The engine raised a runtime fault (trap) during execution.
    ExecutionFault(String),
}

impl CallError {
    /// A human-readable account of the error, used when a trampoline must
    /// translate a resolution failure into the engine's trap representation.
    pub fn describe(&self) -> (r: String)
        ensures
            *self matches CallError::ModuleNotFound ==> r@ == "no server found with module loaded"@,
            *self matches CallError::FunctionNotFound ==> r@ == "function not found in module"@,
            *self matches CallError::IndexInvalid ==> r@ == "export entry not found"@,
            *self matches CallError::NotCallable ==> r@ == "item is not a function"@,
            *self matches CallError::SignatureMismatch ==> r@ == "signature mismatch"@,
            forall|d: String| *self == CallError::ExecutionFault(d) ==> r@ == d@,
    {
        match self {
            CallError::ModuleNotFound => "no server found with module loaded".to_owned(),
            CallError::FunctionNotFound => "function not found in module".to_owned(),
            CallError::IndexInvalid => "export entry not found".to_owned(),
            CallError::NotCallable => "item is not a function".to_owned(),
            CallError::SignatureMismatch => "signature mismatch".to_owned(),
            CallError::ExecutionFault(d) => d.clone(),
        }
    }
}

/// Raised only if the registry's shared guard were corrupted; the guard in use
/// cannot be poisoned, so `Registry::add` proves it never returns this.
#[derive(Debug)]
pub struct ConcurrencyError {}

/// The bytes handed to a server did not parse or validate as a module.
#[derive(Debug)]
pub struct LoadError {
    pub detail: String,
}

/// Instantiation of a parsed module failed.
#[derive(Debug)]
pub enum LinkError {
    /// The module declares an import that is not a function import; the core
    /// only supplies function trampolines.
    UnsupportedImport,
    /// The engine rejected the instantiation (an import's signature did not
    /// match its declaration, or the start function trapped).
    Instantiation(String),
}

/// Why a server could not be constructed from its (name, bytes) pairs.
#[derive(Debug)]
pub enum ServerError {
    Load(LoadError),
    Link(LinkError),
}

} // verus!
