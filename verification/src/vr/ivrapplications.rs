use vstd::prelude::*;

verus! {

#[allow(non_camel_case_types)]
#[derive(Clone, Copy, Debug, PartialEq, Eq, Structural)]
pub enum EVRApplicationError {
    VRApplicationError_None,
    VRApplicationError_AppKeyAlreadyExists,
    VRApplicationError_NoManifest,
    VRApplicationError_NoApplication,
    VRApplicationError_InvalidIndex,
    VRApplicationError_UnknownApplication,
    VRApplicationError_IPCFailed,
    VRApplicationError_ApplicationAlreadyRunning,
    VRApplicationError_InvalidManifest,
    VRApplicationError_InvalidApplication,
    VRApplicationError_LaunchFailed,
    VRApplicationError_ApplicationAlreadyStarting,
    VRApplicationError_LaunchInProgress,
    VRApplicationError_OldApplicationQuitting,
    VRApplicationError_TransitionAborted,
    VRApplicationError_IsTemplate,
    VRApplicationError_SteamVRIsExiting,
    VRApplicationError_BufferTooSmall,
    VRApplicationError_PropertyNotSet,
    VRApplicationError_UnknownProperty,
    VRApplicationError_InvalidParameter,
    VRApplicationError_NotImplemented,
}

pub const MAX_APPLICATION_KEY_LENGTH: usize = 128;

#[allow(non_camel_case_types)]
#[derive(Clone, Copy, Debug, PartialEq, Eq, Structural)]
pub enum EVRApplicationProperty {
    VRApplicationProperty_Name_String,
    VRApplicationProperty_LaunchType_String,
    VRApplicationProperty_WorkingDirectory_String,
    VRApplicationProperty_BinaryPath_String,
    VRApplicationProperty_Arguments_String,
    VRApplicationProperty_URL_String,
    VRApplicationProperty_Description_String,
    VRApplicationProperty_NewsURL_String,
    VRApplicationProperty_ImagePath_String,
    VRApplicationProperty_Source_String,
    VRApplicationProperty_ActionManifestURL_String,
    VRApplicationProperty_IsDashboardOverlay_Bool,
    VRApplicationProperty_IsTemplate_Bool,
    VRApplicationProperty_IsInstanced_Bool,
    VRApplicationProperty_IsInternal_Bool,
    VRApplicationProperty_WantsCompositorPauseInStandby_Bool,
    VRApplicationProperty_IsHidden_Bool,
    VRApplicationProperty_LastLaunchTime_Uint64,
}

#[allow(non_camel_case_types)]
#[derive(Clone, Copy, Debug, PartialEq, Eq, Structural)]
pub enum EVRSceneApplicationState {
    EVRSceneApplicationState_None,
    EVRSceneApplicationState_Starting,
    EVRSceneApplicationState_Quitting,
    EVRSceneApplicationState_Running,
    EVRSceneApplicationState_Waiting,
}

/// A manifest key and the value overriding it when a template application
/// is launched.
#[derive(Debug, Clone)]
pub struct AppOverrideKeys {
    pub key: String,
    pub value: String,
}

pub const MIME_TYPE_HOMEAPP: &'static str = "vr/home";

pub const MIME_TYPE_GAMETHEATER: &'static str = "vr/game_theater";

/// Symbol of an EVRApplicationError value, as the runtime's error-name lookup reports it.
pub open spec fn spec_application_error_symbol(e: EVRApplicationError) -> Seq<char> {
    match e {
        EVRApplicationError::VRApplicationError_None => "VRApplicationError_None"@,
        EVRApplicationError::VRApplicationError_AppKeyAlreadyExists => "VRApplicationError_AppKeyAlreadyExists"@,
        EVRApplicationError::VRApplicationError_NoManifest => "VRApplicationError_NoManifest"@,
        EVRApplicationError::VRApplicationError_NoApplication => "VRApplicationError_NoApplication"@,
        EVRApplicationError::VRApplicationError_InvalidIndex => "VRApplicationError_InvalidIndex"@,
        EVRApplicationError::VRApplicationError_UnknownApplication => "VRApplicationError_UnknownApplication"@,
        EVRApplicationError::VRApplicationError_IPCFailed => "VRApplicationError_IPCFailed"@,
        EVRApplicationError::VRApplicationError_ApplicationAlreadyRunning => "VRApplicationError_ApplicationAlreadyRunning"@,
        EVRApplicationError::VRApplicationError_InvalidManifest => "VRApplicationError_InvalidManifest"@,
        EVRApplicationError::VRApplicationError_InvalidApplication => "VRApplicationError_InvalidApplication"@,
        EVRApplicationError::VRApplicationError_LaunchFailed => "VRApplicationError_LaunchFailed"@,
        EVRApplicationError::VRApplicationError_ApplicationAlreadyStarting => "VRApplicationError_ApplicationAlreadyStarting"@,
        EVRApplicationError::VRApplicationError_LaunchInProgress => "VRApplicationError_LaunchInProgress"@,
        EVRApplicationError::VRApplicationError_OldApplicationQuitting => "VRApplicationError_OldApplicationQuitting"@,
        EVRApplicationError::VRApplicationError_TransitionAborted => "VRApplicationError_TransitionAborted"@,
        EVRApplicationError::VRApplicationError_IsTemplate => "VRApplicationError_IsTemplate"@,
        EVRApplicationError::VRApplicationError_SteamVRIsExiting => "VRApplicationError_SteamVRIsExiting"@,
        EVRApplicationError::VRApplicationError_BufferTooSmall => "VRApplicationError_BufferTooSmall"@,
        EVRApplicationError::VRApplicationError_PropertyNotSet => "VRApplicationError_PropertyNotSet"@,
        EVRApplicationError::VRApplicationError_UnknownProperty => "VRApplicationError_UnknownProperty"@,
        EVRApplicationError::VRApplicationError_InvalidParameter => "VRApplicationError_InvalidParameter"@,
        EVRApplicationError::VRApplicationError_NotImplemented => "VRApplicationError_NotImplemented"@,
    }
}

/// Translates an EVRApplicationError value to its symbol.
pub fn application_error_symbol(e: EVRApplicationError) -> (symbol: &'static str)
    ensures
        symbol@ == spec_application_error_symbol(e),
{
    match e {
        EVRApplicationError::VRApplicationError_None => "VRApplicationError_None",
        EVRApplicationError::VRApplicationError_AppKeyAlreadyExists => "VRApplicationError_AppKeyAlreadyExists",
        EVRApplicationError::VRApplicationError_NoManifest => "VRApplicationError_NoManifest",
        EVRApplicationError::VRApplicationError_NoApplication => "VRApplicationError_NoApplication",
        EVRApplicationError::VRApplicationError_InvalidIndex => "VRApplicationError_InvalidIndex",
        EVRApplicationError::VRApplicationError_UnknownApplication => "VRApplicationError_UnknownApplication",
        EVRApplicationError::VRApplicationError_IPCFailed => "VRApplicationError_IPCFailed",
        EVRApplicationError::VRApplicationError_ApplicationAlreadyRunning => "VRApplicationError_ApplicationAlreadyRunning",
        EVRApplicationError::VRApplicationError_InvalidManifest => "VRApplicationError_InvalidManifest",
        EVRApplicationError::VRApplicationError_InvalidApplication => "VRApplicationError_InvalidApplication",
        EVRApplicationError::VRApplicationError_LaunchFailed => "VRApplicationError_LaunchFailed",
        EVRApplicationError::VRApplicationError_ApplicationAlreadyStarting => "VRApplicationError_ApplicationAlreadyStarting",
        EVRApplicationError::VRApplicationError_LaunchInProgress => "VRApplicationError_LaunchInProgress",
        EVRApplicationError::VRApplicationError_OldApplicationQuitting => "VRApplicationError_OldApplicationQuitting",
        EVRApplicationError::VRApplicationError_TransitionAborted => "VRApplicationError_TransitionAborted",
        EVRApplicationError::VRApplicationError_IsTemplate => "VRApplicationError_IsTemplate",
        EVRApplicationError::VRApplicationError_SteamVRIsExiting => "VRApplicationError_SteamVRIsExiting",
        EVRApplicationError::VRApplicationError_BufferTooSmall => "VRApplicationError_BufferTooSmall",
        EVRApplicationError::VRApplicationError_PropertyNotSet => "VRApplicationError_PropertyNotSet",
        EVRApplicationError::VRApplicationError_UnknownProperty => "VRApplicationError_UnknownProperty",
        EVRApplicationError::VRApplicationError_InvalidParameter => "VRApplicationError_InvalidParameter",
        EVRApplicationError::VRApplicationError_NotImplemented => "VRApplicationError_NotImplemented",
    }
}

/// Symbol of an EVRSceneApplicationState value, as the runtime's name lookup reports it.
pub open spec fn spec_scene_application_state_symbol(e: EVRSceneApplicationState) -> Seq<char> {
    match e {
        EVRSceneApplicationState::EVRSceneApplicationState_None => "EVRSceneApplicationState_None"@,
        EVRSceneApplicationState::EVRSceneApplicationState_Starting => "EVRSceneApplicationState_Starting"@,
        EVRSceneApplicationState::EVRSceneApplicationState_Quitting => "EVRSceneApplicationState_Quitting"@,
        EVRSceneApplicationState::EVRSceneApplicationState_Running => "EVRSceneApplicationState_Running"@,
        EVRSceneApplicationState::EVRSceneApplicationState_Waiting => "EVRSceneApplicationState_Waiting"@,
    }
}

/// Translates an EVRSceneApplicationState value to its symbol.
pub fn scene_application_state_symbol(e: EVRSceneApplicationState) -> (symbol: &'static str)
    ensures
        symbol@ == spec_scene_application_state_symbol(e),
{
    match e {
        EVRSceneApplicationState::EVRSceneApplicationState_None => "EVRSceneApplicationState_None",
        EVRSceneApplicationState::EVRSceneApplicationState_Starting => "EVRSceneApplicationState_Starting",
        EVRSceneApplicationState::EVRSceneApplicationState_Quitting => "EVRSceneApplicationState_Quitting",
        EVRSceneApplicationState::EVRSceneApplicationState_Running => "EVRSceneApplicationState_Running",
        EVRSceneApplicationState::EVRSceneApplicationState_Waiting => "EVRSceneApplicationState_Waiting",
    }
}

} // verus!
