use openvr_api::vr::errors::{init_error_category, EVRInitErrorCategory};
use openvr_api::vr::runtime::VrRuntime;
use openvr_api::vr::version::{
    InterfaceKind, IVRAPPLICATIONS_VERSION, IVRCHAPERONE_SETUP_VERSION, IVRCHAPERONE_VERSION,
    IVRCOMPOSITOR_VERSION, IVRDEBUG_VERSION, IVRSETTINGS_VERSION, IVRSPATIALANCHORS_VERSION,
    IVRSYSTEM_VERSION,
};
use openvr_api::vr::vrtypes::{EVRApplicationType, EVRInitError};

fn scene_ready_runtime() -> VrRuntime {
    VrRuntime::new(true, true, b"/opt/vr_runtime".to_vec(), true)
}

#[test]
fn vr_init_() {
    let mut runtime = scene_ready_runtime();
    runtime.init_internal2(EVRApplicationType::VRApplication_Scene);
}

#[test]
fn get_ivrsystem() {
    let mut runtime = scene_ready_runtime();
    runtime.init_internal2(EVRApplicationType::VRApplication_Scene);

    let (handle, err) = runtime.get_generic_interface(IVRSYSTEM_VERSION);
    assert_eq!(err, EVRInitError::VRInitError_None);
    assert!(handle.is_some());

    runtime.system_is_display_on_desktop(handle.unwrap());
}

#[test]
fn scene_init_then_system_table_invocation() {
    let mut runtime = scene_ready_runtime();

    let (token, err) = runtime.init_internal2(EVRApplicationType::VRApplication_Scene);
    assert_eq!(err, EVRInitError::VRInitError_None);
    assert_eq!(token, 1);

    let (handle, err) = runtime.get_generic_interface(IVRSYSTEM_VERSION);
    assert_eq!(err, EVRInitError::VRInitError_None);
    let handle = handle.expect("a recognized key under an active session yields a handle");
    assert_eq!(handle.kind, InterfaceKind::IVRSystem);
    assert_eq!(handle.session, token);

    let on_desktop = runtime.system_is_display_on_desktop(handle);
    assert!(on_desktop);
}

#[test]
fn unknown_version_key_is_not_found() {
    let mut runtime = scene_ready_runtime();
    runtime.init_internal2(EVRApplicationType::VRApplication_Scene);

    let (handle, err) = runtime.get_generic_interface("IVRSystem_999");
    assert!(handle.is_none());
    assert_eq!(err, EVRInitError::VRInitError_Init_InterfaceNotFound);
}

#[test]
fn discovery_before_init_fails_with_init_error() {
    let runtime = scene_ready_runtime();

    let (handle, err) = runtime.get_generic_interface(IVRSYSTEM_VERSION);
    assert!(handle.is_none());
    assert_eq!(err, EVRInitError::VRInitError_Init_NotInitialized);
    assert_eq!(init_error_category(err), EVRInitErrorCategory::Category_Init);
}

#[test]
fn version_valid_agrees_with_discovery_for_every_key() {
    let mut runtime = scene_ready_runtime();
    runtime.init_internal2(EVRApplicationType::VRApplication_Scene);

    let keys = [
        IVRSYSTEM_VERSION,
        IVRAPPLICATIONS_VERSION,
        IVRSETTINGS_VERSION,
        IVRCHAPERONE_VERSION,
        IVRCHAPERONE_SETUP_VERSION,
        IVRCOMPOSITOR_VERSION,
        IVRSPATIALANCHORS_VERSION,
        IVRDEBUG_VERSION,
        "IVRSystem_999",
        "IVRSystem_021",
        "",
        "IVROverlay_027",
    ];
    for key in keys {
        let valid = runtime.is_interface_version_valid(key);
        let (handle, err) = runtime.get_generic_interface(key);
        assert_eq!(
            valid,
            handle.is_some() && err == EVRInitError::VRInitError_None,
            "probe and discovery disagree on {key:?}"
        );
    }
}

#[test]
fn each_registered_key_resolves_to_its_own_table() {
    let mut runtime = scene_ready_runtime();
    runtime.init_internal2(EVRApplicationType::VRApplication_Scene);

    let expected = [
        (IVRSYSTEM_VERSION, InterfaceKind::IVRSystem),
        (IVRAPPLICATIONS_VERSION, InterfaceKind::IVRApplications),
        (IVRSETTINGS_VERSION, InterfaceKind::IVRSettings),
        (IVRCHAPERONE_VERSION, InterfaceKind::IVRChaperone),
        (IVRCHAPERONE_SETUP_VERSION, InterfaceKind::IVRChaperoneSetup),
        (IVRCOMPOSITOR_VERSION, InterfaceKind::IVRCompositor),
        (IVRSPATIALANCHORS_VERSION, InterfaceKind::IVRSpatialAnchors),
        (IVRDEBUG_VERSION, InterfaceKind::IVRDebug),
    ];
    for (key, kind) in expected {
        let (handle, err) = runtime.get_generic_interface(key);
        assert_eq!(err, EVRInitError::VRInitError_None);
        assert_eq!(handle.unwrap().kind, kind);
    }
}

#[test]
fn shutdown_completes_and_reinit_succeeds() {
    let mut runtime = scene_ready_runtime();

    let (first_token, err) = runtime.init_internal2(EVRApplicationType::VRApplication_Scene);
    assert_eq!(err, EVRInitError::VRInitError_None);
    let (old_handle, _) = runtime.get_generic_interface(IVRSYSTEM_VERSION);
    let old_handle = old_handle.unwrap();

    runtime.shutdown_internal();

    let (second_token, err) = runtime.init_internal2(EVRApplicationType::VRApplication_Scene);
    assert_eq!(err, EVRInitError::VRInitError_None);
    assert_ne!(second_token, first_token);

    // A handle from the first session never matches the new session's token.
    let (new_handle, _) = runtime.get_generic_interface(IVRSYSTEM_VERSION);
    let new_handle = new_handle.unwrap();
    assert_eq!(new_handle.session, second_token);
    assert_ne!(old_handle.session, new_handle.session);
}

#[test]
fn reinit_while_active_keeps_the_session() {
    let mut runtime = scene_ready_runtime();

    let (first_token, _) = runtime.init_internal2(EVRApplicationType::VRApplication_Scene);
    let (second_token, err) = runtime.init_internal2(EVRApplicationType::VRApplication_Utility);
    assert_eq!(err, EVRInitError::VRInitError_None);
    assert_eq!(second_token, first_token);
    assert_eq!(runtime.get_init_token(), first_token);
}

#[test]
fn init_without_installation_reports_installation_not_found() {
    let mut runtime = VrRuntime::new(true, false, Vec::new(), false);

    let (token, err) = runtime.init_internal2(EVRApplicationType::VRApplication_Utility);
    assert_eq!(token, 0);
    assert_eq!(err, EVRInitError::VRInitError_Init_InstallationNotFound);
    assert_eq!(runtime.get_init_token(), 0);
}

#[test]
fn scene_init_without_hmd_reports_hmd_not_found() {
    let mut runtime = VrRuntime::new(false, true, Vec::new(), false);

    let (token, err) = runtime.init_internal2(EVRApplicationType::VRApplication_Scene);
    assert_eq!(token, 0);
    assert_eq!(err, EVRInitError::VRInitError_Init_HmdNotFound);
}

#[test]
fn utility_init_needs_no_hmd() {
    let mut runtime = VrRuntime::new(false, true, Vec::new(), false);

    let (token, err) = runtime.init_internal2(EVRApplicationType::VRApplication_Utility);
    assert_eq!(err, EVRInitError::VRInitError_None);
    assert_eq!(token, 1);
}

#[test]
fn presence_probes_need_no_session() {
    let runtime = VrRuntime::new(true, false, Vec::new(), false);
    assert!(runtime.is_hmd_present());
    assert!(!runtime.is_runtime_installed());
}

#[test]
fn runtime_path_buffer_sizing_round_trip() {
    let path = b"/opt/vr_runtime".to_vec();
    let required_size = path.len() as u32 + 1;
    let runtime = VrRuntime::new(true, true, path.clone(), false);

    let (ok, data, needed) = runtime.get_runtime_path(0);
    assert!(!ok);
    assert!(data.is_empty());
    assert_eq!(needed, required_size);

    let (ok, data, needed) = runtime.get_runtime_path(needed);
    assert!(ok);
    assert_eq!(needed, required_size);
    assert_eq!(data, path);
    assert_eq!(data.len() as u32 + 1, needed);
}

#[test]
fn runtime_path_larger_buffer_also_succeeds() {
    let runtime = VrRuntime::new(true, true, b"/opt/vr_runtime".to_vec(), false);

    let (ok, data, _) = runtime.get_runtime_path(4096);
    assert!(ok);
    assert_eq!(data, b"/opt/vr_runtime".to_vec());
}

#[test]
fn runtime_path_empty_path_needs_one_byte() {
    let runtime = VrRuntime::new(true, true, Vec::new(), false);

    let (ok, _, needed) = runtime.get_runtime_path(0);
    assert!(!ok);
    assert_eq!(needed, 1);

    let (ok, data, _) = runtime.get_runtime_path(1);
    assert!(ok);
    assert!(data.is_empty());
}
