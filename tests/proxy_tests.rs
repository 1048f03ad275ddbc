use reflex_proxy::codes::{
    DLL_PROCESS_ATTACH, DLL_PROCESS_DETACH, DLL_THREAD_ATTACH, DLL_THREAD_DETACH, FALSE, TRUE,
};
use reflex_proxy::config::ProxyConfig;
use reflex_proxy::error::ProxyError;
use reflex_proxy::proxy::{
    classify_reason, finish_dllmain, pre_dllmain_hook, AttachStep, ForwardStep, LifecycleEvent,
    LoadStep, Phase, ProxyState,
};
use reflex_proxy::symbol::{
    is_c_compatible, resolve_by_name, resolve_by_offset, ModuleHandle, SymbolKey,
};

const BASE: usize = 0x1_8000_0000;
const ENTRY: usize = 0x1_8000_1560;

fn attached_state() -> ProxyState {
    let config = ProxyConfig::default();
    let mut st = ProxyState::new();
    assert_eq!(st.begin_attach(), AttachStep::Initialize);
    assert!(matches!(st.load_request(&config), Ok(LoadStep::CallLoader)));
    st.initialize_proxy(&config, BASE).unwrap();
    st.resolve_entry(ENTRY).unwrap();
    st
}

#[test]
fn reason_codes_are_classified() {
    assert_eq!(classify_reason(DLL_PROCESS_ATTACH), LifecycleEvent::ProcessAttach);
    assert_eq!(classify_reason(DLL_PROCESS_DETACH), LifecycleEvent::ProcessDetach);
    assert_eq!(classify_reason(DLL_THREAD_ATTACH), LifecycleEvent::ThreadAttach);
    assert_eq!(classify_reason(DLL_THREAD_DETACH), LifecycleEvent::ThreadDetach);
    assert_eq!(classify_reason(7), LifecycleEvent::Other(7));
}

#[test]
fn default_config_targets_renamed_module_without_hooks() {
    let c = ProxyConfig::default();
    assert_eq!(c.original_dll_path, "reflex_original.dll");
    assert!(c.enable_logging);
    assert!(!c.enable_pre_hook);
    assert!(!c.enable_post_hook);
}

#[test]
fn nul_bytes_are_not_c_compatible() {
    assert!(is_c_compatible("reflex_original.dll"));
    assert!(is_c_compatible(""));
    assert!(!is_c_compatible("reflex\0.dll"));
}

#[test]
fn resolve_by_name_present_and_absent() {
    let m = ModuleHandle { base: BASE };
    let sym = resolve_by_name(m, "Exported", 0x1_8000_2000).unwrap();
    assert_eq!(sym.address, 0x1_8000_2000);
    assert_eq!(sym.module, m);
    assert!(matches!(sym.key, SymbolKey::Name(ref n) if n == "Exported"));
    match resolve_by_name(m, "Missing", 0) {
        Err(ProxyError::SymbolNotFound { name }) => assert_eq!(name, "Missing"),
        other => panic!("unexpected {:?}", other),
    }
}

#[test]
fn resolve_by_offset_adds_offset_to_base() {
    assert!(resolve_by_offset(None, 0x1234).is_none());
    let sym = resolve_by_offset(Some(ModuleHandle { base: BASE }), 0x1234).unwrap();
    assert_eq!(sym.address, 0x1_8000_1234);
    assert!(matches!(sym.key, SymbolKey::Offset(0x1234)));
    let wrapped = resolve_by_offset(Some(ModuleHandle { base: usize::MAX }), 2).unwrap();
    assert_eq!(wrapped.address, 1);
}

#[test]
fn second_load_reuses_handle() {
    let config = ProxyConfig::default();
    let mut st = ProxyState::new();
    assert!(matches!(st.load_request(&config), Ok(LoadStep::CallLoader)));
    let h = st.initialize_proxy(&config, BASE).unwrap();
    assert_eq!(h.base, BASE);
    match st.load_request(&config) {
        Ok(LoadStep::Cached(h2)) => assert_eq!(h2, h),
        other => panic!("unexpected {:?}", other),
    }
    let again = st.initialize_proxy(&config, 0x2_0000_0000).unwrap();
    assert_eq!(again, h);
}

#[test]
fn failed_load_reports_path() {
    let config = ProxyConfig::default();
    let mut st = ProxyState::new();
    match st.initialize_proxy(&config, 0) {
        Err(ProxyError::ModuleLoadFailed { path }) => assert_eq!(path, "reflex_original.dll"),
        other => panic!("unexpected {:?}", other),
    }
    assert!(st.module.is_none());
}

#[test]
fn path_with_nul_is_refused() {
    let config = ProxyConfig {
        original_dll_path: "bad\0name.dll",
        enable_logging: false,
        enable_pre_hook: false,
        enable_post_hook: false,
    };
    let st = ProxyState::new();
    match st.load_request(&config) {
        Err(ProxyError::InvalidPath { path }) => assert_eq!(path, "bad\0name.dll"),
        other => panic!("unexpected {:?}", other),
    }
}

#[test]
fn entry_resolution_errors() {
    let mut st = ProxyState::new();
    assert!(matches!(st.resolve_entry(ENTRY), Err(ProxyError::ModuleNotLoaded)));
    let config = ProxyConfig::default();
    st.initialize_proxy(&config, BASE).unwrap();
    match st.resolve_entry(0) {
        Err(ProxyError::SymbolNotFound { name }) => assert_eq!(name, "DllMain"),
        other => panic!("unexpected {:?}", other),
    }
    assert_eq!(st.entry, None);
    let sym = st.resolve_entry(ENTRY).unwrap();
    assert_eq!(sym.address, ENTRY);
    assert_eq!(st.phase, Phase::Attached);
}

#[test]
fn second_attach_short_circuits() {
    let mut st = attached_state();
    let before = st;
    assert_eq!(st.begin_attach(), AttachStep::AlreadyAttached);
    assert_eq!(st, before);
    assert!(matches!(
        st.load_request(&ProxyConfig::default()),
        Ok(LoadStep::Cached(ModuleHandle { base: BASE }))
    ));
}

#[test]
fn failed_attach_can_be_retried_without_reloading() {
    let config = ProxyConfig::default();
    let mut st = ProxyState::new();
    assert_eq!(st.begin_attach(), AttachStep::Initialize);
    st.initialize_proxy(&config, BASE).unwrap();
    assert!(st.resolve_entry(0).is_err());
    assert_eq!(st.begin_attach(), AttachStep::Initialize);
    assert!(matches!(st.load_request(&config), Ok(LoadStep::Cached(_))));
}

#[test]
fn forwarding_before_load_fails_without_call() {
    let st = ProxyState::new();
    let config = ProxyConfig::default();
    for reason in [DLL_PROCESS_ATTACH, DLL_PROCESS_DETACH, DLL_THREAD_ATTACH, DLL_THREAD_DETACH] {
        assert_eq!(st.forward_dllmain(&config, pre_dllmain_hook(reason)), ForwardStep::Finish(FALSE));
    }
}

#[test]
fn forwarding_after_attach_calls_original() {
    let st = attached_state();
    let config = ProxyConfig::default();
    assert_eq!(st.forward_dllmain(&config, None), ForwardStep::CallOriginal { entry: ENTRY });
    // a pre-hook result is ignored while the pre-hook stage is disabled
    assert_eq!(st.forward_dllmain(&config, Some(TRUE)), ForwardStep::CallOriginal { entry: ENTRY });
    let done = finish_dllmain(&config, 42);
    assert_eq!(done.result, 42);
    assert!(!done.run_post_hook);
}

#[test]
fn pre_hook_override_skips_original_on_detach() {
    let st = attached_state();
    let config = ProxyConfig {
        original_dll_path: "reflex_original.dll",
        enable_logging: true,
        enable_pre_hook: true,
        enable_post_hook: true,
    };
    assert_eq!(st.forward_dllmain(&config, Some(TRUE)), ForwardStep::Finish(TRUE));
    assert_eq!(pre_dllmain_hook(DLL_PROCESS_DETACH), None);
    assert_eq!(
        st.forward_dllmain(&config, pre_dllmain_hook(DLL_PROCESS_DETACH)),
        ForwardStep::CallOriginal { entry: ENTRY }
    );
    let done = finish_dllmain(&config, FALSE);
    assert_eq!(done.result, FALSE);
    assert!(done.run_post_hook);
}

#[test]
fn detach_moves_through_phases() {
    let mut st = attached_state();
    st.begin_detach();
    assert_eq!(st.phase, Phase::Detaching);
    st.finish_detach();
    assert_eq!(st.phase, Phase::Detached);
    let mut fresh = ProxyState::new();
    fresh.begin_detach();
    fresh.finish_detach();
    assert_eq!(fresh.phase, Phase::Uninitialized);
}

#[test]
fn exports_and_offsets_from_state() {
    let empty = ProxyState::new();
    assert_eq!(empty.get_original_dll_base(), None);
    assert!(empty.resolve_internal_function(0x10).is_none());
    assert!(empty.get_original_export("Thing", 0x1234).is_none());
    let st = attached_state();
    assert_eq!(st.get_original_dll_base(), Some(ModuleHandle { base: BASE }));
    assert_eq!(st.resolve_internal_function(0x10).unwrap().address, BASE + 0x10);
    assert_eq!(st.get_original_export("Thing", 0x1234).unwrap().address, 0x1234);
    assert!(st.get_original_export("Thing", 0).is_none());
    assert!(st.get_original_export("Th\0ing", 0x1234).is_none());
}
