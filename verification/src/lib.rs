//! A host runtime core for sandboxed binary modules: a growable registry of
//! servers, each a bundle of instantiated modules keyed by a global name, with
//! resolution of `(module-name, function-name)` pairs at call time and
//! late-binding trampolines that re-resolve against the registry on every
//! invocation.

mod engine;
pub mod exports;
pub mod host;
pub mod loader;
pub mod module;
pub mod registry;
pub mod server;
pub mod values;
