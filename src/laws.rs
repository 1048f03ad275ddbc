use vstd::prelude::*;

use crate::codes::FALSE;
use crate::config::ProxyConfig;
use crate::proxy::{
    attach_spec, entry_resolved_spec, finish_spec, forward_spec, load_step_spec, loaded_spec,
    AttachStep, ForwardStep, LoadStep, Phase, ProxyState,
};
use crate::symbol::ModuleHandle;

verus! {

/// Loading is retained: once the loader has returned a handle, every later load
/// request is served from that same handle and never calls the loader again, and a
/// further loader result changes nothing.
pub proof fn lemma_load_once(s: ProxyState, loaded: usize, again: usize)
    requires
        s.wf(),
        s.module is None,
        loaded != 0,
    ensures
        load_step_spec(s) == LoadStep::CallLoader,
        load_step_spec(loaded_spec(s, loaded)) == LoadStep::Cached(ModuleHandle { base: loaded }),
        loaded_spec(loaded_spec(s, loaded), again) == loaded_spec(s, loaded),
        loaded_spec(s, loaded).wf(),
{
}

/// Before any successful load nothing is resolved, so forwarding any event returns the
/// failure code without calling into the original module, unless an enabled pre-hook
/// gave a definitive result of its own.
pub proof fn lemma_unloaded_forward_fails(s: ProxyState, config: ProxyConfig, pre: Option<i32>)
    requires
        s.wf(),
        s.module is None,
    ensures
        !(forward_spec(s, config, pre) is CallOriginal),
        (!(config.enable_pre_hook && pre is Some)) ==> forward_spec(s, config, pre)
            == ForwardStep::Finish(FALSE),
{
}

/// A second process-attach after a completed setup short-circuits: the state is left
/// as it is and the module is not loaded again, its handle being retained.
pub proof fn lemma_attach_idempotent(s: ProxyState, loaded: usize, found: usize)
    requires
        s.wf(),
        !s.phase.initialized(),
        s.module is Some || loaded != 0,
        found != 0,
    ensures
        attach_spec(s).1 == AttachStep::Initialize,
        ({
            let done = entry_resolved_spec(loaded_spec(attach_spec(s).0, loaded), found);
            &&& done.wf()
            &&& done.phase == Phase::Attached
            &&& attach_spec(done) == (done, AttachStep::AlreadyAttached)
            &&& load_step_spec(done) is Cached
        }),
{
}

/// With no pre-hook the event reaches the original entry point and its result comes
/// back unchanged; an enabled pre-hook with a definitive result keeps the original
/// entry point from being called at all.
pub proof fn lemma_forward_end_to_end(
    s: ProxyState,
    config: ProxyConfig,
    pre: Option<i32>,
    original_result: i32,
)
    requires
        s.wf(),
        s.entry is Some,
    ensures
        !config.enable_pre_hook ==> forward_spec(s, config, pre) == (ForwardStep::CallOriginal {
            entry: s.entry.unwrap(),
        }),
        finish_spec(config, original_result).result == original_result,
        (config.enable_pre_hook && pre is Some) ==> forward_spec(s, config, pre)
            == ForwardStep::Finish(pre.unwrap()),
{
}

} // verus!
