use vstd::prelude::*;

verus! {

/// Every failure the interception layer reports as a value.
#[derive(Debug)]
pub enum ProxyError {
    /// The configured module path holds a NUL byte and cannot be handed to the loader.
    InvalidPath { path: String },
    /// The platform loader returned no handle for the configured path.
    ModuleLoadFailed { path: String },
    /// A lookup was attempted before the target module was loaded.
    ModuleNotLoaded,
    /// A symbol name holds a NUL byte and cannot be looked up.
    InvalidSymbolName { name: String },
    /// The target module's export table has no entry of that name.
    SymbolNotFound { name: String },
    /// A call through an original function was asked for, but it was never resolved.
    OriginalEntryPointUnresolved,
    /// The original function was called and reported failure.
    OriginalCallFailed,
}

} // verus!
