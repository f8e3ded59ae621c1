use openvr_api::vr::errors::{
    init_error_category, init_error_code, init_error_from_code, init_error_symbol,
    EVRInitErrorCategory,
};
use openvr_api::vr::vrtypes::EVRInitError;

#[test]
fn init_error_codes_match_the_runtime_numbering() {
    let expected = [
        (EVRInitError::VRInitError_None, 0),
        (EVRInitError::VRInitError_Unknown, 1),
        (EVRInitError::VRInitError_Init_InstallationNotFound, 100),
        (EVRInitError::VRInitError_Init_InterfaceNotFound, 105),
        (EVRInitError::VRInitError_Init_HmdNotFound, 108),
        (EVRInitError::VRInitError_Init_NotInitialized, 109),
        (EVRInitError::VRInitError_Init_Retry, 115),
        (EVRInitError::VRInitError_Init_PrismExitedUnexpectedly, 155),
        (EVRInitError::VRInitError_Driver_Failed, 200),
        (EVRInitError::VRInitError_Driver_HmdDriverIdOutOfBounds, 211),
        (EVRInitError::VRInitError_IPC_ServerInitFailed, 300),
        (EVRInitError::VRInitError_IPC_NamespaceUnavailable, 310),
        (EVRInitError::VRInitError_Compositor_Failed, 400),
        (EVRInitError::VRInitError_Compositor_SystemLayerCreateSession, 493),
        (
            EVRInitError::VRInitError_VendorSpecific_UnableToConnectToOculusRuntime,
            1000,
        ),
        (EVRInitError::VRInitError_VendorSpecific_HmdFound_CantOpenDevice, 1101),
        (EVRInitError::VRInitError_Steam_SteamInstallationNotFound, 2000),
        (EVRInitError::VRInitError_LastError, 2001),
    ];
    for (error, code) in expected {
        assert_eq!(init_error_code(error), code, "code of {error:?}");
        assert_eq!(init_error_from_code(code), Some(error), "error of code {code}");
    }
}

#[test]
fn unassigned_codes_decode_to_nothing() {
    for code in [2, 99, 156, 199, 214, 311, 494, 999, 1002, 1100, 1115, 1999, 2002, 4_000_000] {
        assert_eq!(init_error_from_code(code), None, "code {code} is unassigned");
    }
}

#[test]
fn init_error_code_round_trips_across_categories() {
    let sample = [
        EVRInitError::VRInitError_None,
        EVRInitError::VRInitError_Unknown,
        EVRInitError::VRInitError_Init_VRClientDLLNotFound,
        EVRInitError::VRInitError_Init_ShuttingDown,
        EVRInitError::VRInitError_Driver_NotCalibrated,
        EVRInitError::VRInitError_IPC_MutexInitFailed,
        EVRInitError::VRInitError_Compositor_CreateBlendState,
        EVRInitError::VRInitError_VendorSpecific_HmdFound_ConfigTooBig,
        EVRInitError::VRInitError_Steam_SteamInstallationNotFound,
        EVRInitError::VRInitError_LastError,
    ];
    for error in sample {
        assert_eq!(init_error_from_code(init_error_code(error)), Some(error));
    }
}

#[test]
fn init_error_symbols_name_the_error() {
    assert_eq!(
        init_error_symbol(EVRInitError::VRInitError_None),
        "VRInitError_None"
    );
    assert_eq!(
        init_error_symbol(EVRInitError::VRInitError_Init_HmdNotFound),
        "VRInitError_Init_HmdNotFound"
    );
    assert_eq!(
        init_error_symbol(EVRInitError::VRInitError_Init_InterfaceNotFound),
        "VRInitError_Init_InterfaceNotFound"
    );
    assert_eq!(
        init_error_symbol(EVRInitError::VRInitError_IPC_ConnectFailed),
        "VRInitError_IPC_ConnectFailed"
    );
}

#[test]
fn init_error_categories_follow_the_code_ranges() {
    let expected = [
        (EVRInitError::VRInitError_None, EVRInitErrorCategory::Category_Success),
        (EVRInitError::VRInitError_Unknown, EVRInitErrorCategory::Category_Unknown),
        (
            EVRInitError::VRInitError_Init_NotInitialized,
            EVRInitErrorCategory::Category_Init,
        ),
        (
            EVRInitError::VRInitError_Driver_RuntimeOutOfDate,
            EVRInitErrorCategory::Category_Driver,
        ),
        (EVRInitError::VRInitError_IPC_Failed, EVRInitErrorCategory::Category_Ipc),
        (
            EVRInitError::VRInitError_Compositor_OverlayInitFailed,
            EVRInitErrorCategory::Category_Compositor,
        ),
        (
            EVRInitError::VRInitError_VendorSpecific_WindowsNotInDevMode,
            EVRInitErrorCategory::Category_VendorSpecific,
        ),
        (
            EVRInitError::VRInitError_Steam_SteamInstallationNotFound,
            EVRInitErrorCategory::Category_Steam,
        ),
    ];
    for (error, category) in expected {
        assert_eq!(init_error_category(error), category, "category of {error:?}");
    }
}
