use vstd::prelude::*;

verus! {

/// The file name under which the original module sits beside this one.
pub const ORIGINAL_MODULE_PATH: &'static str = "reflex_original.dll";

/// Immutable description of the target module and of the optional hook stages.
pub struct ProxyConfig {
    /// Path of the original module, resolved by the platform's module-search order.
    pub original_dll_path: &'static str,
    /// Whether proxy operations are logged.
    pub enable_logging: bool,
    /// Whether the pre-hook runs before each forwarded lifecycle event.
    pub enable_pre_hook: bool,
    /// Whether the post-hook runs after each forwarded lifecycle event.
    pub enable_post_hook: bool,
}

impl Default for ProxyConfig {
    fn default() -> (r: Self)
        ensures
            r.original_dll_path@ == ORIGINAL_MODULE_PATH@,
            r.enable_logging,
            !r.enable_pre_hook,
            !r.enable_post_hook,
    {
        ProxyConfig {
            original_dll_path: ORIGINAL_MODULE_PATH,
            enable_logging: true,
            enable_pre_hook: false,
            enable_post_hook: false,
        }
    }
}

} // verus!
