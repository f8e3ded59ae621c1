use openvr_api::vr::ivrapplications::{
    application_error_symbol, scene_application_state_symbol, AppOverrideKeys,
    EVRApplicationError, EVRSceneApplicationState, MAX_APPLICATION_KEY_LENGTH,
};
use openvr_api::vr::ivrcompositor::{compositor_error_symbol, EVRCompositorError};
use openvr_api::vr::ivrsettings::{settings_error_symbol, EVRSettingsError, MAX_SETTINGS_KEY_LENGTH};
use openvr_api::vr::version::lookup_interface;
use openvr_api::vr::vrtypes::{
    is_openxr_app_type, is_role_allowed_as_hand, vr_compositor_additional_predicted_frames,
    vr_compositor_number_of_throttled_frames, ETrackedControllerRole, EVRApplicationType,
    VREvent_Process, VRCompositor_PredictionMask, VRCompositor_ThrottleMask,
    k_unMaxTrackedDeviceCount, k_unTrackedDeviceIndexInvalid,
};

#[test]
fn hand_roles_are_the_unassigned_and_the_two_hands() {
    assert!(is_role_allowed_as_hand(
        ETrackedControllerRole::TrackedControllerRole_Invalid
    ));
    assert!(is_role_allowed_as_hand(
        ETrackedControllerRole::TrackedControllerRole_LeftHand
    ));
    assert!(is_role_allowed_as_hand(
        ETrackedControllerRole::TrackedControllerRole_RightHand
    ));
    assert!(!is_role_allowed_as_hand(
        ETrackedControllerRole::TrackedControllerRole_OptOut
    ));
    assert!(!is_role_allowed_as_hand(
        ETrackedControllerRole::TrackedControllerRole_Treadmill
    ));
    assert!(!is_role_allowed_as_hand(
        ETrackedControllerRole::TrackedControllerRole_Stylus
    ));
}

#[test]
fn openxr_app_types_are_the_three_openxr_kinds() {
    assert!(is_openxr_app_type(
        EVRApplicationType::VRApplication_OpenXRInstance
    ));
    assert!(is_openxr_app_type(
        EVRApplicationType::VRApplication_OpenXRScene
    ));
    assert!(is_openxr_app_type(
        EVRApplicationType::VRApplication_OpenXROverlay
    ));
    assert!(!is_openxr_app_type(EVRApplicationType::VRApplication_Scene));
    assert!(!is_openxr_app_type(EVRApplicationType::VRApplication_Other));
    assert!(!is_openxr_app_type(EVRApplicationType::VRApplication_Prism));
}

#[test]
fn reprojection_flag_fields_unpack() {
    assert_eq!(VRCompositor_PredictionMask, 0xF0);
    assert_eq!(VRCompositor_ThrottleMask, 0xF00);
    assert_eq!(vr_compositor_additional_predicted_frames(0x34), 3);
    assert_eq!(vr_compositor_additional_predicted_frames(0x0F), 0);
    assert_eq!(vr_compositor_number_of_throttled_frames(0x534), 5);
    assert_eq!(vr_compositor_number_of_throttled_frames(0x0FF), 0);
}

#[test]
fn lookup_interface_rejects_near_miss_keys() {
    assert!(lookup_interface("IVRSystem_022").is_some());
    assert!(lookup_interface("IVRSystem_023").is_none());
    assert!(lookup_interface("IVRSystem_02").is_none());
    assert!(lookup_interface("ivrsystem_022").is_none());
    assert!(lookup_interface("IVRSystem_0222").is_none());
}

#[test]
fn application_error_symbols_name_the_error() {
    assert_eq!(
        application_error_symbol(EVRApplicationError::VRApplicationError_None),
        "VRApplicationError_None"
    );
    assert_eq!(
        application_error_symbol(EVRApplicationError::VRApplicationError_BufferTooSmall),
        "VRApplicationError_BufferTooSmall"
    );
}

#[test]
fn scene_application_state_symbols_name_the_state() {
    assert_eq!(
        scene_application_state_symbol(EVRSceneApplicationState::EVRSceneApplicationState_None),
        "EVRSceneApplicationState_None"
    );
    assert_eq!(
        scene_application_state_symbol(
            EVRSceneApplicationState::EVRSceneApplicationState_Running
        ),
        "EVRSceneApplicationState_Running"
    );
}

#[test]
fn settings_error_symbols_name_the_error() {
    assert_eq!(
        settings_error_symbol(EVRSettingsError::VRSettingsError_None),
        "VRSettingsError_None"
    );
    assert_eq!(
        settings_error_symbol(EVRSettingsError::VRSettingsError_JsonParseFailed),
        "VRSettingsError_JsonParseFailed"
    );
}

#[test]
fn compositor_error_symbols_name_the_error() {
    assert_eq!(
        compositor_error_symbol(EVRCompositorError::VRCompositorError_None),
        "VRCompositorError_None"
    );
    assert_eq!(
        compositor_error_symbol(EVRCompositorError::VRCompositorError_DoNotHaveFocus),
        "VRCompositorError_DoNotHaveFocus"
    );
}

#[test]
fn marshaling_structs_hold_plain_values() {
    let event = VREvent_Process {
        pid: 7,
        old_pid: 3,
        forced: false,
        connection_lost: true,
    };
    assert_eq!(event, event);
    assert_eq!(event.pid, 7);

    let keys = AppOverrideKeys {
        key: String::from("steam.app.demo"),
        value: String::from("manifest_override"),
    };
    assert!(keys.key.len() <= MAX_APPLICATION_KEY_LENGTH);
    assert!(keys.value.len() <= MAX_SETTINGS_KEY_LENGTH);
}

#[test]
fn tracked_device_constants_keep_their_values() {
    assert_eq!(k_unMaxTrackedDeviceCount, 64);
    assert_eq!(k_unTrackedDeviceIndexInvalid, 0xFFFFFFFF);
}
