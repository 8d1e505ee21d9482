use vstd::prelude::*;

verus! {

/// Every way engine initialization can fail; each one is fatal to it.
#[derive(Debug, Clone, PartialEq, Eq)]
pub enum EngineError {
    /// The named module is not loaded in the host process.
    ModuleNotMapped(String),
    /// The module exposes no interface of that version: (module, version).
    InterfaceNotFound(String, String),
    /// The named function's signature occurs nowhere in its module.
    SignatureNotFound(String),
    /// Another initialization is under way.
    AlreadyInitializing,
    /// Initialization already ran to an end in this process.
    AlreadyInitialized,
}

} // verus!
