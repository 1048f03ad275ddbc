use vstd::prelude::*;
use vstd::string::StringSliceAdditionalSpecFns;

use crate::codes::{DLL_PROCESS_ATTACH, DLL_PROCESS_DETACH, DLL_THREAD_ATTACH, DLL_THREAD_DETACH, FALSE};
use crate::config::ProxyConfig;
use crate::error::ProxyError;
use crate::symbol::{
    has_nul, is_c_compatible, offset_address, resolve_by_name, resolve_by_offset, ModuleHandle,
    ResolvedSymbol, SymbolKey,
};

verus! {

/// Export name of the original module's lifecycle entry point.
pub const ENTRY_POINT_NAME: &'static str = "DllMain";

/// A lifecycle notification, decoded from its reason code.
#[derive(Clone, Copy, PartialEq, Eq, Structural, Debug)]
pub enum LifecycleEvent {
    ProcessAttach,
    ProcessDetach,
    ThreadAttach,
    ThreadDetach,
    Other(u32),
}

/// The event that a reason code stands for.
pub open spec fn event_of(code: u32) -> LifecycleEvent {
    if code == DLL_PROCESS_ATTACH {
        LifecycleEvent::ProcessAttach
    } else if code == DLL_PROCESS_DETACH {
        LifecycleEvent::ProcessDetach
    } else if code == DLL_THREAD_ATTACH {
        LifecycleEvent::ThreadAttach
    } else if code == DLL_THREAD_DETACH {
        LifecycleEvent::ThreadDetach
    } else {
        LifecycleEvent::Other(code)
    }
}

/// Decodes a lifecycle reason code.
pub fn classify_reason(code: u32) -> (r: LifecycleEvent)
    ensures
        r == event_of(code),
{
    if code == DLL_PROCESS_ATTACH {
        LifecycleEvent::ProcessAttach
    } else if code == DLL_PROCESS_DETACH {
        LifecycleEvent::ProcessDetach
    } else if code == DLL_THREAD_ATTACH {
        LifecycleEvent::ThreadAttach
    } else if code == DLL_THREAD_DETACH {
        LifecycleEvent::ThreadDetach
    } else {
        LifecycleEvent::Other(code)
    }
}

/// Where the interception layer stands in the process lifecycle.
#[derive(Clone, Copy, PartialEq, Eq, Structural, Debug)]
pub enum Phase {
    Uninitialized,
    Attaching,
    Attached,
    Detaching,
    Detached,
}

impl Phase {
    /// One-time setup has completed (and is never redone).
    pub open spec fn initialized(self) -> bool {
        self is Attached || self is Detaching || self is Detached
    }

    pub fn is_initialized(&self) -> (r: bool)
        ensures
            r == self.initialized(),
    {
        match self {
            Phase::Attached | Phase::Detaching | Phase::Detached => true,
            _ => false,
        }
    }
}

/// What the host-side attach handler does next.
#[derive(Clone, Copy, PartialEq, Eq, Structural, Debug)]
pub enum AttachStep {
    /// Setup already ran in this process: report success without reloading.
    AlreadyAttached,
    /// Run the one-time setup: load the module and resolve its entry point.
    Initialize,
}

/// Whether the platform loader has to be called for the target module.
#[derive(Clone, Copy, PartialEq, Eq, Structural, Debug)]
pub enum LoadStep {
    /// The module is loaded already; this is its handle.
    Cached(ModuleHandle),
    /// The module is not loaded yet: call the loader and report its result.
    CallLoader,
}

/// What forwarding a lifecycle event comes to.
#[derive(Clone, Copy, PartialEq, Eq, Structural, Debug)]
pub enum ForwardStep {
    /// Return this code to the host without calling into the original module.
    Finish(i32),
    /// Call the original entry point at this address with the unmodified parameters.
    CallOriginal { entry: usize },
}

/// The end of a forwarded call: the code for the host and whether the post-hook observes it.
#[derive(Clone, Copy, PartialEq, Eq, Structural, Debug)]
pub struct ForwardDone {
    pub result: i32,
    pub run_post_hook: bool,
}

/// Process-wide state of the interception layer: its phase, the target module's
/// handle once loaded, and the address of the original entry point once resolved.
#[derive(Clone, Copy, PartialEq, Eq, Structural, Debug)]
pub struct ProxyState {
    pub phase: Phase,
    pub module: Option<ModuleHandle>,
    pub entry: Option<usize>,
}

/// The state after an attach event arrives.
pub open spec fn attach_spec(s: ProxyState) -> (ProxyState, AttachStep) {
    if s.phase.initialized() {
        (s, AttachStep::AlreadyAttached)
    } else {
        (ProxyState { phase: Phase::Attaching, ..s }, AttachStep::Initialize)
    }
}

/// Whether a load of the target module reuses the retained handle or calls the loader.
pub open spec fn load_step_spec(s: ProxyState) -> LoadStep {
    match s.module {
        Some(m) => LoadStep::Cached(m),
        None => LoadStep::CallLoader,
    }
}

/// The state after the loader returned `loaded` (0 when it found no module).
pub open spec fn loaded_spec(s: ProxyState, loaded: usize) -> ProxyState {
    if s.module is None && loaded != 0 {
        ProxyState { module: Some(ModuleHandle { base: loaded }), ..s }
    } else {
        s
    }
}

/// The state after the export lookup of the entry point returned `found`.
pub open spec fn entry_resolved_spec(s: ProxyState, found: usize) -> ProxyState {
    if s.module is Some && found != 0 {
        ProxyState { phase: Phase::Attached, entry: Some(found), ..s }
    } else {
        s
    }
}

/// How an event is forwarded, given what the pre-hook decided (`pre`).
pub open spec fn forward_spec(s: ProxyState, config: ProxyConfig, pre: Option<i32>) -> ForwardStep {
    if config.enable_pre_hook && pre is Some {
        ForwardStep::Finish(pre.unwrap())
    } else {
        match s.entry {
            Some(e) => ForwardStep::CallOriginal { entry: e },
            None => ForwardStep::Finish(FALSE),
        }
    }
}

impl ProxyState {
    /// The handle is never null, an entry point belongs to a loaded module,
    /// and completed setup means the entry point is known.
    pub open spec fn wf(self) -> bool {
        &&& (self.module matches Some(m) ==> m.wf())
        &&& (self.entry matches Some(e) ==> e != 0 && self.module is Some)
        &&& (self.phase.initialized() ==> self.entry is Some)
    }

    /// Nothing loaded, nothing resolved.
    pub fn new() -> (r: Self)
        ensures
            r.wf(),
            r.phase == Phase::Uninitialized,
            r.module is None,
            r.entry is None,
    {
        ProxyState { phase: Phase::Uninitialized, module: None, entry: None }
    }

    /// Handles a process-attach event: a repeated attach short-circuits; otherwise
    /// one-time setup starts.
    pub fn begin_attach(&mut self) -> (r: AttachStep)
        requires
            old(self).wf(),
        ensures
            final(self).wf(),
            (*final(self), r) == attach_spec(*old(self)),
    {
        if self.phase.is_initialized() {
            AttachStep::AlreadyAttached
        } else {
            self.phase = Phase::Attaching;
            AttachStep::Initialize
        }
    }

    /// Decides how the module named by `config` is obtained: from the retained
    /// handle, or by one call of the platform loader. A path with a NUL byte is refused.
    pub fn load_request(&self, config: &ProxyConfig) -> (r: Result<LoadStep, ProxyError>)
        ensures
            r is Err <==> has_nul(config.original_dll_path.spec_bytes()),
            r matches Ok(step) ==> step == load_step_spec(*self),
            r matches Err(e) ==> (e matches ProxyError::InvalidPath { path }
                && path@ == config.original_dll_path@),
    {
        if !is_c_compatible(config.original_dll_path) {
            return Err(ProxyError::InvalidPath { path: config.original_dll_path.to_owned() });
        }
        match self.module {
            Some(m) => Ok(LoadStep::Cached(m)),
            None => Ok(LoadStep::CallLoader),
        }
    }

    /// Records what the platform loader returned for `config`'s path (`loaded`, 0 when
    /// it returned no handle) and retains the handle for the rest of the process.
    /// A module that is loaded already keeps its handle.
    pub fn initialize_proxy(&mut self, config: &ProxyConfig, loaded: usize) -> (r: Result<
        ModuleHandle,
        ProxyError,
    >)
        requires
            old(self).wf(),
        ensures
            final(self).wf(),
            *final(self) == loaded_spec(*old(self), loaded),
            r is Ok <==> final(self).module is Some,
            r matches Ok(h) ==> final(self).module == Some(h),
            r matches Err(e) ==> (e matches ProxyError::ModuleLoadFailed { path }
                && path@ == config.original_dll_path@),
    {
        match self.module {
            Some(m) => Ok(m),
            None => {
                if loaded == 0 {
                    Err(ProxyError::ModuleLoadFailed { path: config.original_dll_path.to_owned() })
                } else {
                    let h = ModuleHandle { base: loaded };
                    self.module = Some(h);
                    Ok(h)
                }
            },
        }
    }

    /// Records what the export lookup of the entry point returned (`found`, 0 when
    /// absent) and, on success, completes the one-time setup.
    pub fn resolve_entry(&mut self, found: usize) -> (r: Result<ResolvedSymbol, ProxyError>)
        requires
            old(self).wf(),
        ensures
            final(self).wf(),
            *final(self) == entry_resolved_spec(*old(self), found),
            r is Ok <==> (old(self).module is Some && found != 0),
            r matches Ok(sym) ==> (Some(sym.module) == old(self).module && sym.address == found
                && (sym.key matches SymbolKey::Name(n) && n@ == ENTRY_POINT_NAME@)),
            r matches Err(e) ==> (if old(self).module is None {
                e == ProxyError::ModuleNotLoaded
            } else {
                e matches ProxyError::SymbolNotFound { name } && name@ == ENTRY_POINT_NAME@
            }),
    {
        match self.module {
            None => Err(ProxyError::ModuleNotLoaded),
            Some(m) => {
                let r = resolve_by_name(m, ENTRY_POINT_NAME, found);
                if r.is_ok() {
                    self.entry = Some(found);
                    self.phase = Phase::Attached;
                }
                r
            },
        }
    }

    /// Handles a process-detach event before it is forwarded.
    pub fn begin_detach(&mut self)
        requires
            old(self).wf(),
        ensures
            final(self).wf(),
            final(self).module == old(self).module,
            final(self).entry == old(self).entry,
            final(self).phase == (if old(self).phase == Phase::Attached {
                Phase::Detaching
            } else {
                old(self).phase
            }),
    {
        if self.phase == Phase::Attached {
            self.phase = Phase::Detaching;
        }
    }

    /// Marks a forwarded process-detach as done.
    pub fn finish_detach(&mut self)
        requires
            old(self).wf(),
        ensures
            final(self).wf(),
            final(self).module == old(self).module,
            final(self).entry == old(self).entry,
            final(self).phase == (if old(self).phase == Phase::Detaching {
                Phase::Detached
            } else {
                old(self).phase
            }),
    {
        if self.phase == Phase::Detaching {
            self.phase = Phase::Detached;
        }
    }

    /// Decides how a lifecycle event is forwarded. `pre` is what the pre-hook returned
    /// for it; it counts only when `config` enables the pre-hook. Without a definitive
    /// pre-hook result and without a resolved entry point the failure code comes back
    /// and nothing is called.
    pub fn forward_dllmain(&self, config: &ProxyConfig, pre: Option<i32>) -> (r: ForwardStep)
        ensures
            r == forward_spec(*self, *config, pre),
    {
        if config.enable_pre_hook {
            if let Some(v) = pre {
                return ForwardStep::Finish(v);
            }
        }
        match self.entry {
            Some(e) => ForwardStep::CallOriginal { entry: e },
            None => ForwardStep::Finish(FALSE),
        }
    }

    /// The handle of the loaded target module, if any.
    pub fn get_original_dll_base(&self) -> (r: Option<ModuleHandle>)
        ensures
            r == self.module,
    {
        self.module
    }

    /// Resolves a non-exported function by its byte offset from the module base. Absent
    /// only while no module is loaded; a wrong offset is not detected.
    pub fn resolve_internal_function(&self, offset: usize) -> (r: Option<ResolvedSymbol>)
        ensures
            r is Some <==> self.module is Some,
            r matches Some(sym) ==> (Some(sym.module) == self.module && sym.address
                == offset_address(sym.module.base, offset) && sym.key == SymbolKey::Offset(
                offset,
            )),
    {
        resolve_by_offset(self.module, offset)
    }

    /// Binds an export of the loaded module. `found` is what the platform's export
    /// lookup returned for `name` (0 when absent). Absent when no module is loaded,
    /// when `name` holds a NUL byte, or when the export table has no such entry.
    pub fn get_original_export(&self, name: &str, found: usize) -> (r: Option<ResolvedSymbol>)
        ensures
            r is Some <==> (self.module is Some && !has_nul(name.spec_bytes()) && found != 0),
            r matches Some(sym) ==> (Some(sym.module) == self.module && sym.address == found
                && (sym.key matches SymbolKey::Name(n) && n@ == name@)),
    {
        match self.module {
            None => None,
            Some(m) => {
                if !is_c_compatible(name) {
                    return None;
                }
                match resolve_by_name(m, name, found) {
                    Ok(sym) => Some(sym),
                    Err(_) => None,
                }
            },
        }
    }
}

/// The pre-hook installed by default: it observes every event and overrides none.
pub fn pre_dllmain_hook(reason: u32) -> (r: Option<i32>)
    ensures
        r is None,
{
    None
}

/// The end of a forwarded call whose original entry point returned `original_result`.
pub open spec fn finish_spec(config: ProxyConfig, original_result: i32) -> ForwardDone {
    ForwardDone { result: original_result, run_post_hook: config.enable_post_hook }
}

/// Ends a call forwarded to the original entry point: its result goes back to the host
/// unchanged, and the post-hook observes it when `config` enables it.
pub fn finish_dllmain(config: &ProxyConfig, original_result: i32) -> (r: ForwardDone)
    ensures
        r == finish_spec(*config, original_result),
{
    ForwardDone { result: original_result, run_post_hook: config.enable_post_hook }
}

} // verus!
