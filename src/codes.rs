use vstd::prelude::*;

verus! {

/// Lifecycle reason code: the process is unloading the module.
pub const DLL_PROCESS_DETACH: u32 = 0;

/// Lifecycle reason code: the module is being loaded into the process.
pub const DLL_PROCESS_ATTACH: u32 = 1;

/// Lifecycle reason code: a thread is starting in the process.
pub const DLL_THREAD_ATTACH: u32 = 2;

/// Lifecycle reason code: a thread is exiting cleanly.
pub const DLL_THREAD_DETACH: u32 = 3;

/// The platform's boolean-like success code.
pub const TRUE: i32 = 1;

/// The platform's boolean-like failure code.
pub const FALSE: i32 = 0;

/// Registry status code for a successful query.
pub const ERROR_SUCCESS: i32 = 0;

/// Registry status code: the caller's buffer is too small for the value.
pub const ERROR_MORE_DATA: i32 = 234;

} // verus!
