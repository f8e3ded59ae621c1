use vstd::prelude::*;

verus! {

#[allow(non_camel_case_types)]
#[derive(Clone, Copy, Debug, PartialEq, Eq, Structural)]
pub struct VkDevice;

#[allow(non_camel_case_types)]
#[derive(Clone, Copy, Debug, PartialEq, Eq, Structural)]
pub struct VkPhysicalDevice;

#[allow(non_camel_case_types)]
#[derive(Clone, Copy, Debug, PartialEq, Eq, Structural)]
pub struct VkInstance;

#[allow(non_camel_case_types)]
#[derive(Clone, Copy, Debug, PartialEq, Eq, Structural)]
pub struct VkQueue;

pub type SpatialAnchorHandle = u32;

pub type GLInt = i32;

pub type GLUint = u32;

#[allow(non_camel_case_types)]
#[derive(Clone, Copy, Debug, PartialEq, Eq, Structural)]
pub enum EVREye {
    Eye_Left,
    Eye_Right,
}

#[allow(non_camel_case_types)]
#[derive(Clone, Copy, Debug, PartialEq, Eq, Structural)]
pub enum ETextureType {
    TextureType_Invalid,
    TextureType_DirectX,
    TextureType_OpenGL,
    TextureType_Vulkan,
    TextureType_IOSurface,
    TextureType_DirectX12,
    TextureType_DXGISharedHandle,
    TextureType_Metal,
}

#[allow(non_camel_case_types)]
#[derive(Clone, Copy, Debug, PartialEq, Eq, Structural)]
pub enum EColorSpace {
    ColorSpace_Auto,
    ColorSpace_Gamma,
    ColorSpace_Linear,
}

pub type SharedTextureHandle = u64;

pub const INVALID_SHARED_TEXTURE_HANDLE: SharedTextureHandle = 0;

#[allow(non_camel_case_types)]
#[derive(Clone, Copy, Debug, PartialEq, Eq, Structural)]
pub enum ETrackingResult {
    TrackingResult_Uninitialized,
    TrackingResult_Calibrating_InProgress,
    TrackingResult_Calibrating_OutOfRange,
    TrackingResult_Running_OK,
    TrackingResult_Running_OutOfRange,
    TrackingResult_Fallback_RotationOnly,
}

pub type DriverId = u32;

#[allow(non_upper_case_globals)]
pub const k_nDriverNone: u32 = 0xFFFFFFFF;

#[allow(non_upper_case_globals)]
pub const k_unMaxDriverDebugResponseSize: u32 = 32768;

pub type TrackedDeviceIndex = u32;

#[allow(non_upper_case_globals)]
pub const k_unTrackedDeviceIndex_Hmd: u32 = 0;

#[allow(non_upper_case_globals)]
pub const k_unMaxTrackedDeviceCount: u32 = 64;

#[allow(non_upper_case_globals)]
pub const k_unTrackedDeviceIndexOther: u32 = 0xFFFFFFFE;

#[allow(non_upper_case_globals)]
pub const k_unTrackedDeviceIndexInvalid: u32 = 0xFFFFFFFF;

#[allow(non_camel_case_types)]
#[derive(Clone, Copy, Debug, PartialEq, Eq, Structural)]
pub enum ETrackedDeviceClass {
    TrackedDeviceClass_Invalid,
    TrackedDeviceClass_HMD,
    TrackedDeviceClass_Controller,
    TrackedDeviceClass_GenericTracker,
    TrackedDeviceClass_TrackingReference,
    TrackedDeviceClass_DisplayRedirect,
    TrackedDeviceClass_Max,
}

#[allow(non_camel_case_types)]
#[derive(Clone, Copy, Debug, PartialEq, Eq, Structural)]
pub enum ETrackedControllerRole {
    TrackedControllerRole_Invalid,
    TrackedControllerRole_LeftHand,
    TrackedControllerRole_RightHand,
    TrackedControllerRole_OptOut,
    TrackedControllerRole_Treadmill,
    TrackedControllerRole_Stylus,
}

/// Whether a tracked controller role may be assigned to a hand slot.
pub fn is_role_allowed_as_hand(role: ETrackedControllerRole) -> (allowed: bool)
    ensures
        allowed <==> (role == ETrackedControllerRole::TrackedControllerRole_Invalid
            || role == ETrackedControllerRole::TrackedControllerRole_LeftHand
            || role == ETrackedControllerRole::TrackedControllerRole_RightHand),
{
    match role {
        ETrackedControllerRole::TrackedControllerRole_Invalid
        | ETrackedControllerRole::TrackedControllerRole_LeftHand
        | ETrackedControllerRole::TrackedControllerRole_RightHand => true,
        _ => false,
    }
}

#[allow(non_camel_case_types)]
#[derive(Clone, Copy, Debug, PartialEq, Eq, Structural)]
pub enum ETrackingUniverseOrigin {
    TrackingUniverseSeated,
    TrackingUniverseStanding,
    TrackingUniverseRawAndUncalibrated,
}

pub type WebConsoleHandle = u64;

pub const INVALID_WEB_CONSOLE_HANDLE: WebConsoleHandle = 0;

#[allow(non_camel_case_types)]
#[derive(Clone, Copy, Debug, PartialEq, Eq, Structural)]
pub enum EAdditionalRadioFeatures {
    AdditionalRadioFeatures_None,
    AdditionalRadioFeatures_HTCLinkBox,
    AdditionalRadioFeatures_InternalDongle,
    AdditionalRadioFeatures_ExternalDongle,
}

pub type PropertyContainerHandle = u64;

pub type PropertyTypeTag = u32;

pub type DriverHandle = PropertyContainerHandle;

#[allow(non_upper_case_globals)]
pub const k_ulInvalidPropertyContainer: PropertyContainerHandle = 0;

#[allow(non_upper_case_globals)]
pub const k_unInvalidPropertyTag: PropertyTypeTag = 0;

#[allow(non_upper_case_globals)]
pub const k_ulInvalidDriverHandle: DriverHandle = 0;

#[allow(non_upper_case_globals)]
pub const k_unFloatPropertyTag: PropertyTypeTag = 1;

#[allow(non_upper_case_globals)]
pub const k_unInt32PropertyTag: PropertyTypeTag = 2;

#[allow(non_upper_case_globals)]
pub const k_unUint64PropertyTag: PropertyTypeTag = 3;

#[allow(non_upper_case_globals)]
pub const k_unBoolPropertyTag: PropertyTypeTag = 4;

#[allow(non_upper_case_globals)]
pub const k_unStringPropertyTag: PropertyTypeTag = 5;

#[allow(non_upper_case_globals)]
pub const k_unErrorPropertyTag: PropertyTypeTag = 6;

#[allow(non_upper_case_globals)]
pub const k_unDoublePropertyTag: PropertyTypeTag = 7;

#[allow(non_upper_case_globals)]
pub const k_unHmdMatrix34PropertyTag: PropertyTypeTag = 20;

#[allow(non_upper_case_globals)]
pub const k_unHmdMatrix44PropertyTag: PropertyTypeTag = 21;

#[allow(non_upper_case_globals)]
pub const k_unHmdVector3PropertyTag: PropertyTypeTag = 22;

#[allow(non_upper_case_globals)]
pub const k_unHmdVector4PropertyTag: PropertyTypeTag = 23;

#[allow(non_upper_case_globals)]
pub const k_unHmdVector2PropertyTag: PropertyTypeTag = 24;

#[allow(non_upper_case_globals)]
pub const k_unHmdQuadPropertyTag: PropertyTypeTag = 25;

#[allow(non_upper_case_globals)]
pub const k_unHiddenAreaPropertyTag: PropertyTypeTag = 30;

#[allow(non_upper_case_globals)]
pub const k_unPathHandleInfoTag: PropertyTypeTag = 31;

#[allow(non_upper_case_globals)]
pub const k_unActionPropertyTag: PropertyTypeTag = 32;

#[allow(non_upper_case_globals)]
pub const k_unInputValuePropertyTag: PropertyTypeTag = 33;

#[allow(non_upper_case_globals)]
pub const k_unWildcardPropertyTag: PropertyTypeTag = 34;

#[allow(non_upper_case_globals)]
pub const k_unHapticVibrationPropertyTag: PropertyTypeTag = 35;

#[allow(non_upper_case_globals)]
pub const k_unSkeletonPropertyTag: PropertyTypeTag = 36;

#[allow(non_upper_case_globals)]
pub const k_unSpatialAnchorPosePropertyTag: PropertyTypeTag = 40;

#[allow(non_upper_case_globals)]
pub const k_unJsonPropertyTag: PropertyTypeTag = 41;

#[allow(non_upper_case_globals)]
pub const k_unActiveActionSetPropertyTag: PropertyTypeTag = 42;

#[allow(non_upper_case_globals)]
pub const k_unOpenVRInternalReserved_Start: PropertyTypeTag = 1000;

#[allow(non_upper_case_globals)]
pub const k_unOpenVRInternalReserved_End: PropertyTypeTag = 10000;

#[allow(non_camel_case_types)]
#[derive(Clone, Copy, Debug, PartialEq, Eq, Structural)]
pub enum ETrackedDeviceProperty {
    Prop_Invalid,
    Prop_TrackingSystemName_String,
    Prop_ModelNumber_String,
    Prop_SerialNumber_String,
    Prop_RenderModelName_String,
    Prop_WillDriftInYaw_Bool,
    Prop_ManufacturerName_String,
    Prop_TrackingFirmwareVersion_String,
    Prop_HardwareRevision_String,
    Prop_AllWirelessDongleDescriptions_String,
    Prop_ConnectedWirelessDongle_String,
    Prop_DeviceIsWireless_Bool,
    Prop_DeviceIsCharging_Bool,
    Prop_DeviceBatteryPercentage_Float,
    Prop_StatusDisplayTransform_Matrix34,
    Prop_Firmware_UpdateAvailable_Bool,
    Prop_Firmware_ManualUpdate_Bool,
    Prop_Firmware_ManualUpdateURL_String,
    Prop_HardwareRevision_Uint64,
    Prop_FirmwareVersion_Uint64,
    Prop_FPGAVersion_Uint64,
    Prop_VRCVersion_Uint64,
    Prop_RadioVersion_Uint64,
    Prop_DongleVersion_Uint64,
    Prop_BlockServerShutdown_Bool,
    Prop_CanUnifyCoordinateSystemWithHmd_Bool,
    Prop_ContainsProximitySensor_Bool,
    Prop_DeviceProvidesBatteryStatus_Bool,
    Prop_DeviceCanPowerOff_Bool,
    Prop_Firmware_ProgrammingTarget_String,
    Prop_DeviceClass_Int32,
    Prop_HasCamera_Bool,
    Prop_DriverVersion_String,
    Prop_Firmware_ForceUpdateRequired_Bool,
    Prop_ViveSystemButtonFixRequired_Bool,
    Prop_ParentDriver_Uint64,
    Prop_ResourceRoot_String,
    Prop_RegisteredDeviceType_String,
    Prop_InputProfilePath_String,
    Prop_NeverTracked_Bool,
    Prop_NumCameras_Int32,
    Prop_CameraFrameLayout_Int32,
    Prop_CameraStreamFormat_Int32,
    Prop_AdditionalDeviceSettingsPath_String,
    Prop_Identifiable_Bool,
    Prop_BootloaderVersion_Uint64,
    Prop_AdditionalSystemReportData_String,
    Prop_CompositeFirmwareVersion_String,
    Prop_Firmware_RemindUpdate_Bool,
    Prop_PeripheralApplicationVersion_Uint64,
    Prop_ManufacturerSerialNumber_String,
    Prop_ComputedSerialNumber_String,
    Prop_EstimatedDeviceFirstUseTime_Int32,
    Prop_ReportsTimeSinceVSync_Bool,
    Prop_SecondsFromVsyncToPhotons_Float,
    Prop_DisplayFrequency_Float,
    Prop_UserIpdMeters_Float,
    Prop_CurrentUniverseId_Uint64,
    Prop_PreviousUniverseId_Uint64,
    Prop_DisplayFirmwareVersion_Uint64,
    Prop_IsOnDesktop_Bool,
    Prop_DisplayMCType_Int32,
    Prop_DisplayMCOffset_Float,
    Prop_DisplayMCScale_Float,
    Prop_EdidVendorID_Int32,
    Prop_DisplayMCImageLeft_String,
    Prop_DisplayMCImageRight_String,
    Prop_DisplayGCBlackClamp_Float,
    Prop_EdidProductID_Int32,
    Prop_CameraToHeadTransform_Matrix34,
    Prop_DisplayGCType_Int32,
    Prop_DisplayGCOffset_Float,
    Prop_DisplayGCScale_Float,
    Prop_DisplayGCPrescale_Float,
    Prop_DisplayGCImage_String,
    Prop_LensCenterLeftU_Float,
    Prop_LensCenterLeftV_Float,
    Prop_LensCenterRightU_Float,
    Prop_LensCenterRightV_Float,
    Prop_UserHeadToEyeDepthMeters_Float,
    Prop_CameraFirmwareVersion_Uint64,
    Prop_CameraFirmwareDescription_String,
    Prop_DisplayFPGAVersion_Uint64,
    Prop_DisplayBootloaderVersion_Uint64,
    Prop_DisplayHardwareVersion_Uint64,
    Prop_AudioFirmwareVersion_Uint64,
    Prop_CameraCompatibilityMode_Int32,
    Prop_ScreenshotHorizontalFieldOfViewDegrees_Float,
    Prop_ScreenshotVerticalFieldOfViewDegrees_Float,
    Prop_DisplaySuppressed_Bool,
    Prop_DisplayAllowNightMode_Bool,
    Prop_DisplayMCImageWidth_Int32,
    Prop_DisplayMCImageHeight_Int32,
    Prop_DisplayMCImageNumChannels_Int32,
    Prop_DisplayMCImageData_Binary,
    Prop_SecondsFromPhotonsToVblank_Float,
    Prop_DriverDirectModeSendsVsyncEvents_Bool,
    Prop_DisplayDebugMode_Bool,
    Prop_GraphicsAdapterLuid_Uint64,
    Prop_DriverProvidedChaperonePath_String,
    Prop_ExpectedTrackingReferenceCount_Int32,
    Prop_ExpectedControllerCount_Int32,
    Prop_NamedIconPathControllerLeftDeviceOff_String,
    Prop_NamedIconPathControllerRightDeviceOff_String,
    Prop_NamedIconPathTrackingReferenceDeviceOff_String,
    Prop_DoNotApplyPrediction_Bool,
    Prop_CameraToHeadTransforms_Matrix34_Array,
    Prop_DistortionMeshResolution_Int32,
    Prop_DriverIsDrawingControllers_Bool,
    Prop_DriverRequestsApplicationPause_Bool,
    Prop_DriverRequestsReducedRendering_Bool,
    Prop_MinimumIpdStepMeters_Float,
    Prop_AudioBridgeFirmwareVersion_Uint64,
    Prop_ImageBridgeFirmwareVersion_Uint64,
    Prop_ImuToHeadTransform_Matrix34,
    Prop_ImuFactoryGyroBias_Vector3,
    Prop_ImuFactoryGyroScale_Vector3,
    Prop_ImuFactoryAccelerometerBias_Vector3,
    Prop_ImuFactoryAccelerometerScale_Vector3,
    Prop_ConfigurationIncludesLighthouse20Features_Bool,
    Prop_AdditionalRadioFeatures_Uint64,
    Prop_CameraWhiteBalance_Vector4_Array,
    Prop_CameraDistortionFunction_Int32_Array,
    Prop_CameraDistortionCoefficients_Float_Array,
    Prop_ExpectedControllerType_String,
    Prop_HmdTrackingStyle_Int32,
    Prop_DriverProvidedChaperoneVisibility_Bool,
    Prop_HmdColumnCorrectionSettingPrefix_String,
    Prop_CameraSupportsCompatibilityModes_Bool,
    Prop_SupportsRoomViewDepthProjection_Bool,
    Prop_DisplayAvailableFrameRates_Float_Array,
    Prop_DisplaySupportsMultipleFramerates_Bool,
    Prop_DisplayColorMultLeft_Vector3,
    Prop_DisplayColorMultRight_Vector3,
    Prop_DisplaySupportsRuntimeFramerateChange_Bool,
    Prop_DisplaySupportsAnalogGain_Bool,
    Prop_DisplayMinAnalogGain_Float,
    Prop_DisplayMaxAnalogGain_Float,
    Prop_CameraExposureTime_Float,
    Prop_CameraGlobalGain_Float,
    Prop_DashboardScale_Float,
    Prop_IpdUIRangeMinMeters_Float,
    Prop_IpdUIRangeMaxMeters_Float,
    Prop_Hmd_SupportsHDCP14LegacyCompat_Bool,
    Prop_Hmd_SupportsMicMonitoring_Bool,
    Prop_DriverRequestedMuraCorrectionMode_Int32,
    Prop_DriverRequestedMuraFeather_InnerLeft_Int32,
    Prop_DriverRequestedMuraFeather_InnerRight_Int32,
    Prop_DriverRequestedMuraFeather_InnerTop_Int32,
    Prop_DriverRequestedMuraFeather_InnerBottom_Int32,
    Prop_DriverRequestedMuraFeather_OuterLeft_Int32,
    Prop_DriverRequestedMuraFeather_OuterRight_Int32,
    Prop_DriverRequestedMuraFeather_OuterTop_Int32,
    Prop_DriverRequestedMuraFeather_OuterBottom_Int32,
    Prop_Audio_DefaultPlaybackDeviceId_String,
    Prop_Audio_DefaultRecordingDeviceId_String,
    Prop_Audio_DefaultPlaybackDeviceVolume_Float,
    Prop_Audio_SupportsDualSpeakerAndJackOutput_Bool,
    Prop_AttachedDeviceId_String,
    Prop_SupportedButtons_Uint64,
    Prop_Axis0Type_Int32,
    Prop_Axis1Type_Int32,
    Prop_Axis2Type_Int32,
    Prop_Axis3Type_Int32,
    Prop_Axis4Type_Int32,
    Prop_ControllerRoleHint_Int32,
    Prop_FieldOfViewLeftDegrees_Float,
    Prop_FieldOfViewRightDegrees_Float,
    Prop_FieldOfViewTopDegrees_Float,
    Prop_FieldOfViewBottomDegrees_Float,
    Prop_TrackingRangeMinimumMeters_Float,
    Prop_TrackingRangeMaximumMeters_Float,
    Prop_ModeLabel_String,
    Prop_CanWirelessIdentify_Bool,
    Prop_Nonce_Int32,
    Prop_IconPathName_String,
    Prop_NamedIconPathDeviceOff_String,
    Prop_NamedIconPathDeviceSearching_String,
    Prop_NamedIconPathDeviceSearchingAlert_String,
    Prop_NamedIconPathDeviceReady_String,
    Prop_NamedIconPathDeviceReadyAlert_String,
    Prop_NamedIconPathDeviceNotReady_String,
    Prop_NamedIconPathDeviceStandby_String,
    Prop_NamedIconPathDeviceAlertLow_String,
    Prop_NamedIconPathDeviceStandbyAlert_String,
    Prop_DisplayHiddenArea_Binary_Start,
    Prop_DisplayHiddenArea_Binary_End,
    Prop_ParentContainer,
    Prop_OverrideContainer_Uint64,
    Prop_UserConfigPath_String,
    Prop_InstallPath_String,
    Prop_HasDisplayComponent_Bool,
    Prop_HasControllerComponent_Bool,
    Prop_HasCameraComponent_Bool,
    Prop_HasDriverDirectModeComponent_Bool,
    Prop_HasVirtualDisplayComponent_Bool,
    Prop_HasSpatialAnchorsSupport_Bool,
    Prop_ControllerType_String,
    Prop_ControllerHandSelectionPriority_Int32,
    Prop_VendorSpecific_Reserved_Start,
    Prop_VendorSpecific_Reserved_End,
    Prop_TrackedDeviceProperty_Max,
}

#[allow(non_upper_case_globals)]
pub const k_unMaxPropertyStringSize: u32 = 32 * 1024;

#[allow(non_camel_case_types)]
#[derive(Clone, Copy, Debug, PartialEq, Eq, Structural)]
pub enum ETrackedPropertyError {
    TrackedProp_Success,
    TrackedProp_WrongDataType,
    TrackedProp_WrongDeviceClass,
    TrackedProp_BufferTooSmall,
    TrackedProp_UnknownProperty,
    TrackedProp_InvalidDevice,
    TrackedProp_CouldNotContactServer,
    TrackedProp_ValueNotProvidedByDevice,
    TrackedProp_StringExceedsMaximumLength,
    TrackedProp_NotYetAvailable,
    TrackedProp_PermissionDenied,
    TrackedProp_InvalidOperation,
    TrackedProp_CannotWriteToWildcards,
    TrackedProp_IPCReadFailure,
    TrackedProp_OutOfMemory,
    TrackedProp_InvalidContainer,
}

#[allow(non_camel_case_types)]
#[derive(Clone, Copy, Debug, PartialEq, Eq, Structural)]
pub enum EHmdTrackingStyle {
    HmdTrackingStyle_Unknown,
    HmdTrackingStyle_Lighthouse,
    HmdTrackingStyle_OutsideInCameras,
    HmdTrackingStyle_InsideOutCameras,
}

pub type VRActionHandle = u64;

pub type VRActionSetHandle = u64;

pub type VRInputValueHandle = u64;

#[allow(non_upper_case_globals)]
pub const k_ulInvalidActionHandle: VRActionHandle = 0;

#[allow(non_upper_case_globals)]
pub const k_ulInvalidActionSetHandle: VRActionSetHandle = 0;

#[allow(non_upper_case_globals)]
pub const k_ulInvalidInputValueHandle: VRInputValueHandle = 0;

#[allow(non_camel_case_types)]
#[derive(Clone, Copy, Debug, PartialEq, Eq, Structural)]
pub enum EVRState {
    VRState_Undefined,
    VRState_Off,
    VRState_Searching,
    VRState_Searching_Alert,
    VRState_Ready,
    VRState_Ready_Alert,
    VRState_NotReady,
    VRState_Standby,
    VRState_Ready_Alert_Low,
}

#[allow(non_camel_case_types)]
#[derive(Clone, Copy, Debug, PartialEq, Eq, Structural)]
pub enum EVRSubmitFlags {
    Submit_Default,
    Submit_LensDistortionAlreadyApplied,
    Submit_GlRenderBuffer,
    Submit_Reserved,
    Submit_TextureWithPose,
    Submit_TextureWithDepth,
    Submit_FrameDiscontinuty,
    Submit_VulkanTextureWithArrayData,
    Submit_GlArrayTexture,
    Submit_Reserved2,
}

#[allow(non_camel_case_types)]
#[derive(Clone, Copy, Debug, PartialEq, Eq, Structural)]
pub enum EDeviceActivityLevel {
    k_EDeviceActivityLevel_Unknown,
    k_EDeviceActivityLevel_Idle,
    k_EDeviceActivityLevel_UserInteraction,
    k_EDeviceActivityLevel_UserInteraction_Timeout,
    k_EDeviceActivityLevel_Standby,
    k_EDeviceActivityLevel_Idle_Timeout,
}

#[allow(non_camel_case_types)]
#[derive(Clone, Copy, Debug, PartialEq, Eq, Structural)]
pub enum EVRButtonId {
    k_EButton_System,
    k_EButton_ApplicationMenu,
    k_EButton_Grip,
    k_EButton_DPad_Left,
    k_EButton_DPad_Up,
    k_EButton_DPad_Right,
    k_EButton_DPad_Down,
    k_EButton_A,
    k_EButton_ProximitySensor,
    k_EButton_Axis0,
    k_EButton_Axis1,
    k_EButton_Axis2,
    k_EButton_Axis3,
    k_EButton_Axis4,
    k_EButton_Max,
}

#[allow(non_camel_case_types)]
#[derive(Clone, Copy, Debug, PartialEq, Eq, Structural)]
pub struct VREvent_Controller {
    pub button: u32,
}

#[allow(non_camel_case_types)]
#[derive(Clone, Copy, Debug, PartialEq, Eq, Structural)]
pub enum EVRMouseButton {
    VRMouseButton_Left,
    VRMouseButton_Right,
    VRMouseButton_Middle,
}

#[allow(non_camel_case_types)]
#[derive(Clone, Copy, Debug, PartialEq, Eq, Structural)]
pub struct VREvent_Notification {
    pub user_value: u64,
    pub notification_id: u32,
}

#[allow(non_camel_case_types)]
#[derive(Clone, Copy, Debug, PartialEq, Eq, Structural)]
pub struct VREvent_Process {
    pub pid: u32,
    pub old_pid: u32,
    pub forced: bool,
    pub connection_lost: bool,
}

#[allow(non_camel_case_types)]
#[derive(Clone, Copy, Debug, PartialEq, Eq, Structural)]
pub struct VREvent_Overlay {
    pub overlay_handle: u64,
    pub device_path: u64,
    pub memory_block_id: u64,
}

#[allow(non_camel_case_types)]
#[derive(Clone, Copy, Debug, PartialEq, Eq, Structural)]
pub struct VREvent_Status {
    pub status_state: u32,
}

#[allow(non_camel_case_types)]
#[derive(Clone, Copy, Debug, PartialEq, Eq)]
pub struct VREvent_Keyboard {
    pub new_input: [u8; 8],
    pub user_value: u64,
}

#[allow(non_camel_case_types)]
#[derive(Clone, Copy, Debug, PartialEq, Eq, Structural)]
pub struct VREvent_Chaperone {
    pub previous_universe: u64,
    pub current_universe: u64,
}

#[allow(non_camel_case_types)]
#[derive(Clone, Copy, Debug, PartialEq, Eq, Structural)]
pub struct VREvent_Reserved {
    pub reserved0: u64,
    pub reserved1: u64,
    pub reserved2: u64,
    pub reserved3: u64,
    pub reserved4: u64,
    pub reserved5: u64,
}

#[allow(non_camel_case_types)]
#[derive(Clone, Copy, Debug, PartialEq, Eq, Structural)]
pub struct VREvent_PerformanceTest {
    pub fidelity_level: u32,
}

#[allow(non_camel_case_types)]
#[derive(Clone, Copy, Debug, PartialEq, Eq, Structural)]
pub struct VREvent_SeatedZeroPoseReset {
    pub reset_by_system_menu: bool,
}

#[allow(non_camel_case_types)]
#[derive(Clone, Copy, Debug, PartialEq, Eq, Structural)]
pub struct VREvent_Screenshot {
    pub handle: u32,
    pub type_: u32,
}

#[allow(non_camel_case_types)]
#[derive(Clone, Copy, Debug, PartialEq, Eq, Structural)]
pub struct VREvent_ApplicationLaunch {
    pub pid: u32,
    pub args_handle: u32,
}

#[allow(non_camel_case_types)]
#[derive(Clone, Copy, Debug, PartialEq, Eq, Structural)]
pub struct VREvent_EditingCameraSurface {
    pub overlay_handle: u64,
    pub visual_mode: u32,
}

#[allow(non_camel_case_types)]
#[derive(Clone, Copy, Debug, PartialEq, Eq, Structural)]
pub struct VREvent_MessageOverlay {
    pub vr_message_overlay_response: u32,
}

#[allow(non_camel_case_types)]
#[derive(Clone, Copy, Debug, PartialEq, Eq, Structural)]
pub struct VREvent_Property {
    pub container: PropertyContainerHandle,
    pub prop: ETrackedDeviceProperty,
}

#[allow(non_camel_case_types)]
#[derive(Clone, Copy, Debug, PartialEq, Eq, Structural)]
pub struct VREvent_WebConsole {
    pub web_console_handle: WebConsoleHandle,
}

#[allow(non_camel_case_types)]
#[derive(Clone, Copy, Debug, PartialEq, Eq, Structural)]
pub struct VREvent_InputBindingLoad {
    pub app_container: PropertyContainerHandle,
    pub path_message: u64,
    pub path_url: u64,
    pub path_controller_type: u64,
}

#[allow(non_camel_case_types)]
#[derive(Clone, Copy, Debug, PartialEq, Eq, Structural)]
pub struct VREvent_InputActionManifestLoad {
    pub path_app_key: u64,
    pub path_message: u64,
    pub path_message_param: u64,
    pub path_manifest_path: u64,
}

#[allow(non_camel_case_types)]
#[derive(Clone, Copy, Debug, PartialEq, Eq, Structural)]
pub struct VREvent_SpatialAnchor {
    pub handle: SpatialAnchorHandle,
}

#[allow(non_camel_case_types)]
#[derive(Clone, Copy, Debug, PartialEq, Eq, Structural)]
pub struct VREvent_ProgressUpdate {
    pub application_property_container: u64,
    pub path_device: u64,
    pub path_input_source: u64,
    pub path_progress_action: u64,
    pub path_icon: u64,
    pub f_progress: u64,
}

#[allow(non_camel_case_types)]
#[derive(Clone, Copy, Debug, PartialEq, Eq, Structural)]
pub enum EShowUIType {
    ShowUI_ControllerBinding,
    ShowUI_ManageTrackers,
    ShowUI_Pairing,
    ShowUI_Settings,
    ShowUI_DebugCommands,
    ShowUI_FullControllerBinding,
    ShowUI_ManageDrivers,
}

#[allow(non_camel_case_types)]
#[derive(Clone, Copy, Debug, PartialEq, Eq, Structural)]
pub struct VREvent_ShowUI {
    pub type_: EShowUIType,
}

#[allow(non_camel_case_types)]
#[derive(Clone, Copy, Debug, PartialEq, Eq, Structural)]
pub struct VREvent_ShowDevTools {
    pub browser_identifier: i32,
}

#[allow(non_camel_case_types)]
#[derive(Clone, Copy, Debug, PartialEq, Eq, Structural)]
pub enum EHDCPError {
    HDCPError_None,
    HDCPError_LinkLost,
    HDCPError_Tampered,
    HDCPError_DeviceRevoked,
    HDCPError_Unknown,
}

#[allow(non_camel_case_types)]
#[derive(Clone, Copy, Debug, PartialEq, Eq, Structural)]
pub struct VREvent_HDCPError {
    pub code: EHDCPError,
}

#[allow(non_camel_case_types)]
#[derive(Clone, Copy, Debug, PartialEq, Eq, Structural)]
pub enum EVREventType {
    VREvent_None,
    VREvent_TrackedDeviceActivated,
    VREvent_TrackedDeviceDeactivated,
    VREvent_TrackedDeviceUpdated,
    VREvent_TrackedDeviceUserInteractionStarted,
    VREvent_TrackedDeviceUserInteractionEnded,
    VREvent_IpdChanged,
    VREvent_EnterStandbyMode,
    VREvent_LeaveStandbyMode,
    VREvent_TrackedDeviceRoleChanged,
    VREvent_WatchdogWakeUpRequested,
    VREvent_LensDistortionChanged,
    VREvent_PropertyChanged,
    VREvent_WirelessDisconnect,
    VREvent_WirelessReconnect,
    VREvent_ButtonPress,
    VREvent_ButtonUnpress,
    VREvent_ButtonTouch,
    VREvent_ButtonUntouch,
    VREvent_Modal_Cancel,
    VREvent_MouseMove,
    VREvent_MouseButtonDown,
    VREvent_MouseButtonUp,
    VREvent_FocusEnter,
    VREvent_FocusLeave,
    VREvent_ScrollDiscrete,
    VREvent_TouchPadMove,
    VREvent_OverlayFocusChanged,
    VREvent_ReloadOverlays,
    VREvent_ScrollSmooth,
    VREvent_LockMousePosition,
    VREvent_UnlockMousePosition,
    VREvent_InputFocusCaptured,
    VREvent_InputFocusReleased,
    VREvent_SceneApplicationChanged,
    VREvent_SceneFocusChanged,
    VREvent_InputFocusChanged,
    VREvent_SceneApplicationUsingWrongGraphicsAdapter,
    VREvent_ActionBindingReloaded,
    VREvent_HideRenderModels,
    VREvent_ShowRenderModels,
    VREvent_SceneApplicationStateChanged,
    VREvent_ConsoleOpened,
    VREvent_ConsoleClosed,
    VREvent_OverlayShown,
    VREvent_OverlayHidden,
    VREvent_DashboardActivated,
    VREvent_DashboardDeactivated,
    VREvent_DashboardRequested,
    VREvent_ResetDashboard,
    VREvent_ImageLoaded,
    VREvent_ShowKeyboard,
    VREvent_HideKeyboard,
    VREvent_OverlayGamepadFocusGained,
    VREvent_OverlayGamepadFocusLost,
    VREvent_OverlaySharedTextureChanged,
    VREvent_ScreenshotTriggered,
    VREvent_ImageFailed,
    VREvent_DashboardOverlayCreated,
    VREvent_SwitchGamepadFocus,
    VREvent_RequestScreenshot,
    VREvent_ScreenshotTaken,
    VREvent_ScreenshotFailed,
    VREvent_SubmitScreenshotToDashboard,
    VREvent_ScreenshotProgressToDashboard,
    VREvent_PrimaryDashboardDeviceChanged,
    VREvent_RoomViewShown,
    VREvent_RoomViewHidden,
    VREvent_ShowUI,
    VREvent_ShowDevTools,
    VREvent_DesktopViewUpdating,
    VREvent_DesktopViewReady,
    VREvent_Notification_Shown,
    VREvent_Notification_Hidden,
    VREvent_Notification_BeginInteraction,
    VREvent_Notification_Destroyed,
    VREvent_Quit,
    VREvent_ProcessQuit,
    VREvent_QuitAcknowledged,
    VREvent_DriverRequestedQuit,
    VREvent_RestartRequested,
    VREvent_ChaperoneDataHasChanged,
    VREvent_ChaperoneUniverseHasChanged,
    VREvent_ChaperoneTempDataHasChanged,
    VREvent_ChaperoneSettingsHaveChanged,
    VREvent_SeatedZeroPoseReset,
    VREvent_ChaperoneFlushCache,
    VREvent_ChaperoneRoomSetupStarting,
    VREvent_ChaperoneRoomSetupFinished,
    VREvent_StandingZeroPoseReset,
    VREvent_AudioSettingsHaveChanged,
    VREvent_BackgroundSettingHasChanged,
    VREvent_CameraSettingsHaveChanged,
    VREvent_ReprojectionSettingHasChanged,
    VREvent_ModelSkinSettingsHaveChanged,
    VREvent_EnvironmentSettingsHaveChanged,
    VREvent_PowerSettingsHaveChanged,
    VREvent_EnableHomeAppSettingsHaveChanged,
    VREvent_SteamVRSectionSettingChanged,
    VREvent_LighthouseSectionSettingChanged,
    VREvent_NullSectionSettingChanged,
    VREvent_UserInterfaceSectionSettingChanged,
    VREvent_NotificationsSectionSettingChanged,
    VREvent_KeyboardSectionSettingChanged,
    VREvent_PerfSectionSettingChanged,
    VREvent_DashboardSectionSettingChanged,
    VREvent_WebInterfaceSectionSettingChanged,
    VREvent_TrackersSectionSettingChanged,
    VREvent_LastKnownSectionSettingChanged,
    VREvent_DismissedWarningsSectionSettingChanged,
    VREvent_GpuSpeedSectionSettingChanged,
    VREvent_WindowsMRSectionSettingChanged,
    VREvent_OtherSectionSettingChanged,
    VREvent_StatusUpdate,
    VREvent_WebInterface_InstallDriverCompleted,
    VREvent_MCImageUpdated,
    VREvent_FirmwareUpdateStarted,
    VREvent_FirmwareUpdateFinished,
    VREvent_KeyboardClosed,
    VREvent_KeyboardCharInput,
    VREvent_KeyboardDone,
    VREvent_ApplicationListUpdated,
    VREvent_ApplicationMimeTypeLoad,
    VREvent_ProcessConnected,
    VREvent_ProcessDisconnected,
    VREvent_Compositor_ChaperoneBoundsShown,
    VREvent_Compositor_ChaperoneBoundsHidden,
    VREvent_Compositor_DisplayDisconnected,
    VREvent_Compositor_DisplayReconnected,
    VREvent_Compositor_HDCPError,
    VREvent_Compositor_ApplicationNotResponding,
    VREvent_Compositor_ApplicationResumed,
    VREvent_Compositor_OutOfVideoMemory,
    VREvent_Compositor_DisplayModeNotSupported,
    VREvent_Compositor_StageOverrideReady,
    VREvent_TrackedCamera_StartVideoStream,
    VREvent_TrackedCamera_StopVideoStream,
    VREvent_TrackedCamera_PauseVideoStream,
    VREvent_TrackedCamera_ResumeVideoStream,
    VREvent_TrackedCamera_EditingSurface,
    VREvent_PerformanceTest_EnableCapture,
    VREvent_PerformanceTest_DisableCapture,
    VREvent_PerformanceTest_FidelityLevel,
    VREvent_MessageOverlay_Closed,
    VREvent_MessageOverlayCloseRequested,
    VREvent_Input_HapticVibration,
    VREvent_Input_BindingLoadFailed,
    VREvent_Input_BindingLoadSuccessful,
    VREvent_Input_ActionManifestReloaded,
    VREvent_Input_ActionManifestLoadFailed,
    VREvent_Input_ProgressUpdate,
    VREvent_Input_TrackerActivated,
    VREvent_Input_BindingsUpdated,
    VREvent_Input_BindingSubscriptionChanged,
    VREvent_SpatialAnchors_PoseUpdated,
    VREvent_SpatialAnchors_DescriptorUpdated,
    VREvent_SpatialAnchors_RequestPoseUpdate,
    VREvent_SpatialAnchors_RequestDescriptorUpdate,
    VREvent_SystemReport_Started,
    VREvent_Monitor_ShowHeadsetView,
    VREvent_Monitor_HideHeadsetView,
    VREvent_VendorSpecific_Reserved_Start,
    VREvent_VendorSpecific_Reserved_End,
}

pub type VRComponentProperties = u32;

#[allow(non_camel_case_types)]
#[derive(Clone, Copy, Debug, PartialEq, Eq, Structural)]
pub enum EVRComponentProperty {
    VRComponentProperty_IsStatic,
    VRComponentProperty_IsVisible,
    VRComponentProperty_IsTouched,
    VRComponentProperty_IsPressed,
    VRComponentProperty_IsScrolled,
    VRComponentProperty_IsHighlighted,
}

#[allow(non_camel_case_types)]
#[derive(Clone, Copy, Debug, PartialEq, Eq, Structural)]
pub enum EVRInputError {
    VRInputError_None,
    VRInputError_NameNotFound,
    VRInputError_WrongType,
    VRInputError_InvalidHandle,
    VRInputError_InvalidParam,
    VRInputError_NoSteam,
    VRInputError_MaxCapacityReached,
    VRInputError_IPCError,
    VRInputError_NoActiveActionSet,
    VRInputError_InvalidDevice,
    VRInputError_InvalidSkeleton,
    VRInputError_InvalidBoneCount,
    VRInputError_InvalidCompressedData,
    VRInputError_NoData,
    VRInputError_BufferTooSmall,
    VRInputError_MismatchedActionManifest,
    VRInputError_MissingSkeletonData,
    VRInputError_InvalidBoneIndex,
    VRInputError_InvalidPriority,
    VRInputError_PermissionDenied,
    VRInputError_InvalidRenderModel,
}

#[allow(non_camel_case_types)]
#[derive(Clone, Copy, Debug, PartialEq, Eq, Structural)]
pub enum EVRSpatialAnchorError {
    VRSpatialAnchorError_Success,
    VRSpatialAnchorError_Internal,
    VRSpatialAnchorError_UnknownHandle,
    VRSpatialAnchorError_ArrayTooSmall,
    VRSpatialAnchorError_InvalidDescriptorChar,
    VRSpatialAnchorError_NotYetAvailable,
    VRSpatialAnchorError_NotAvailableInThisUniverse,
    VRSpatialAnchorError_PermanentlyUnavailable,
    VRSpatialAnchorError_WrongDriver,
    VRSpatialAnchorError_DescriptorTooLong,
    VRSpatialAnchorError_Unknown,
    VRSpatialAnchorError_NoRoomCalibration,
    VRSpatialAnchorError_InvalidArgument,
    VRSpatialAnchorError_UnknownDriver,
}

#[allow(non_camel_case_types)]
#[derive(Clone, Copy, Debug, PartialEq, Eq, Structural)]
pub enum EHiddenAreaMeshType {
    k_eHiddenAreaMesh_Standard,
    k_eHiddenAreaMesh_Inverse,
    k_eHiddenAreaMesh_LineLoop,
    k_eHiddenAreaMesh_Max,
}

#[allow(non_camel_case_types)]
#[derive(Clone, Copy, Debug, PartialEq, Eq, Structural)]
pub enum EVRControllerAxisType {
    k_eControllerAxis_None,
    k_eControllerAxis_TrackPad,
    k_eControllerAxis_Joystick,
    k_eControllerAxis_Trigger,
}

#[allow(non_upper_case_globals)]
pub const k_unControllerStateAxisCount: usize = 5;

#[allow(non_camel_case_types)]
#[derive(Clone, Copy, Debug, PartialEq, Eq, Structural)]
pub enum EVRControllerEventOutputType {
    ControllerEventOutput_OSEvents,
    ControllerEventOutput_VREvents,
}

#[allow(non_camel_case_types)]
#[derive(Clone, Copy, Debug, PartialEq, Eq, Structural)]
pub enum ECollisionBoundsStyle {
    COLLISION_BOUNDS_STYLE_BEGINNER,
    COLLISION_BOUNDS_STYLE_INTERMEDIATE,
    COLLISION_BOUNDS_STYLE_SQUARES,
    COLLISION_BOUNDS_STYLE_ADVANCED,
    COLLISION_BOUNDS_STYLE_NONE,
    COLLISION_BOUNDS_STYLE_COUNT,
}

pub type VROverlayHandle = u64;

pub const OVERLAY_HANDLE_INVALID: VROverlayHandle = 0;

#[allow(non_camel_case_types)]
#[derive(Clone, Copy, Debug, PartialEq, Eq, Structural)]
pub enum EVROverlayError {
    VROverlayError_None,
    VROverlayError_UnknownOverlay,
    VROverlayError_InvalidHandle,
    VROverlayError_PermissionDenied,
    VROverlayError_OverlayLimitExceeded,
    VROverlayError_WrongVisibilityType,
    VROverlayError_KeyTooLong,
    VROverlayError_NameTooLong,
    VROverlayError_KeyInUse,
    VROverlayError_WrongTransformType,
    VROverlayError_InvalidTrackedDevice,
    VROverlayError_InvalidParameter,
    VROverlayError_ThumbnailCantBeDestroyed,
    VROverlayError_ArrayTooSmall,
    VROverlayError_RequestFailed,
    VROverlayError_InvalidTexture,
    VROverlayError_UnableToLoadFile,
    VROverlayError_KeyboardAlreadyInUse,
    VROverlayError_NoNeighbor,
    VROverlayError_TooManyMaskPrimitives,
    VROverlayError_BadMaskPrimitive,
    VROverlayError_TextureAlreadyLocked,
    VROverlayError_TextureLockCapacityReached,
    VROverlayError_TextureNotLocked,
}

#[allow(non_camel_case_types)]
#[derive(Clone, Copy, Debug, PartialEq, Eq, Structural)]
pub enum EVRApplicationType {
    VRApplication_Other,
    VRApplication_Scene,
    VRApplication_Overlay,
    VRApplication_Background,
    VRApplication_Utility,
    VRApplication_VRMonitor,
    VRApplication_SteamWatchdog,
    VRApplication_Bootstrapper,
    VRApplication_WebHelper,
    VRApplication_OpenXRInstance,
    VRApplication_OpenXRScene,
    VRApplication_OpenXROverlay,
    VRApplication_Prism,
    VRApplication_Max,
}

/// Whether an application type is one of the OpenXR session kinds.
pub fn is_openxr_app_type(type_: EVRApplicationType) -> (r: bool)
    ensures
        r <==> (type_ == EVRApplicationType::VRApplication_OpenXRInstance
            || type_ == EVRApplicationType::VRApplication_OpenXROverlay
            || type_ == EVRApplicationType::VRApplication_OpenXRScene),
{
    match type_ {
        EVRApplicationType::VRApplication_OpenXRInstance
        | EVRApplicationType::VRApplication_OpenXROverlay
        | EVRApplicationType::VRApplication_OpenXRScene => true,
        _ => false,
    }
}

/// Numeric code that the runtime uses for an application type on its side
/// of the boundary.
pub open spec fn spec_application_type_code(app_type: EVRApplicationType) -> u32 {
    match app_type {
        EVRApplicationType::VRApplication_Other => 0,
        EVRApplicationType::VRApplication_Scene => 1,
        EVRApplicationType::VRApplication_Overlay => 2,
        EVRApplicationType::VRApplication_Background => 3,
        EVRApplicationType::VRApplication_Utility => 4,
        EVRApplicationType::VRApplication_VRMonitor => 5,
        EVRApplicationType::VRApplication_SteamWatchdog => 6,
        EVRApplicationType::VRApplication_Bootstrapper => 7,
        EVRApplicationType::VRApplication_WebHelper => 8,
        EVRApplicationType::VRApplication_OpenXRInstance => 9,
        EVRApplicationType::VRApplication_OpenXRScene => 10,
        EVRApplicationType::VRApplication_OpenXROverlay => 11,
        EVRApplicationType::VRApplication_Prism => 12,
        EVRApplicationType::VRApplication_Max => 13,
    }
}

/// Numeric code of an application type.
pub fn application_type_code(app_type: EVRApplicationType) -> (code: u32)
    ensures
        code == spec_application_type_code(app_type),
{
    match app_type {
        EVRApplicationType::VRApplication_Other => 0,
        EVRApplicationType::VRApplication_Scene => 1,
        EVRApplicationType::VRApplication_Overlay => 2,
        EVRApplicationType::VRApplication_Background => 3,
        EVRApplicationType::VRApplication_Utility => 4,
        EVRApplicationType::VRApplication_VRMonitor => 5,
        EVRApplicationType::VRApplication_SteamWatchdog => 6,
        EVRApplicationType::VRApplication_Bootstrapper => 7,
        EVRApplicationType::VRApplication_WebHelper => 8,
        EVRApplicationType::VRApplication_OpenXRInstance => 9,
        EVRApplicationType::VRApplication_OpenXRScene => 10,
        EVRApplicationType::VRApplication_OpenXROverlay => 11,
        EVRApplicationType::VRApplication_Prism => 12,
        EVRApplicationType::VRApplication_Max => 13,
    }
}

#[allow(non_camel_case_types)]
#[derive(Clone, Copy, Debug, PartialEq, Eq, Structural)]
pub enum EVRFirmwareError {
    VRFirmwareError_None,
    VRFirmwareError_Success,
    VRFirmwareError_Fail,
}

#[allow(non_camel_case_types)]
#[derive(Clone, Copy, Debug, PartialEq, Eq, Structural)]
pub enum EVRNotificationError {
    VRNotificationError_OK,
    VRNotificationError_InvalidNotificationId,
    VRNotificationError_NotificationQueueFull,
    VRNotificationError_InvalidOverlayHandle,
    VRNotificationError_SystemWithUserValueAlreadyExists,
}

#[allow(non_camel_case_types)]
#[derive(Clone, Copy, Debug, PartialEq, Eq, Structural)]
pub enum EVRSkeletalMotionRange {
    VRSkeletalMotionRange_WithController,
    VRSkeletalMotionRange_WithoutController,
}

#[allow(non_camel_case_types)]
#[derive(Clone, Copy, Debug, PartialEq, Eq, Structural)]
pub enum EVRSkeletalTrackingLevel {
    VRSkeletalTracking_Estimated,
    VRSkeletalTracking_Partial,
    VRSkeletalTracking_Full,
}

pub type BoneIndex = i32;

pub const INVALID_BONE_INDEX: BoneIndex = -1;

#[allow(non_camel_case_types)]
#[derive(Clone, Copy, Debug, PartialEq, Eq, Structural)]
pub enum EVRInitError {
    VRInitError_None,
    VRInitError_Unknown,
    VRInitError_Init_InstallationNotFound,
    VRInitError_Init_InstallationCorrupt,
    VRInitError_Init_VRClientDLLNotFound,
    VRInitError_Init_FileNotFound,
    VRInitError_Init_FactoryNotFound,
    VRInitError_Init_InterfaceNotFound,
    VRInitError_Init_InvalidInterface,
    VRInitError_Init_UserConfigDirectoryInvalid,
    VRInitError_Init_HmdNotFound,
    VRInitError_Init_NotInitialized,
    VRInitError_Init_PathRegistryNotFound,
    VRInitError_Init_NoConfigPath,
    VRInitError_Init_NoLogPath,
    VRInitError_Init_PathRegistryNotWritable,
    VRInitError_Init_AppInfoInitFailed,
    VRInitError_Init_Retry,
    VRInitError_Init_InitCanceledByUser,
    VRInitError_Init_AnotherAppLaunching,
    VRInitError_Init_SettingsInitFailed,
    VRInitError_Init_ShuttingDown,
    VRInitError_Init_TooManyObjects,
    VRInitError_Init_NoServerForBackgroundApp,
    VRInitError_Init_NotSupportedWithCompositor,
    VRInitError_Init_NotAvailableToUtilityApps,
    VRInitError_Init_Internal,
    VRInitError_Init_HmdDriverIdIsNone,
    VRInitError_Init_HmdNotFoundPresenceFailed,
    VRInitError_Init_VRMonitorNotFound,
    VRInitError_Init_VRMonitorStartupFailed,
    VRInitError_Init_LowPowerWatchdogNotSupported,
    VRInitError_Init_InvalidApplicationType,
    VRInitError_Init_NotAvailableToWatchdogApps,
    VRInitError_Init_WatchdogDisabledInSettings,
    VRInitError_Init_VRDashboardNotFound,
    VRInitError_Init_VRDashboardStartupFailed,
    VRInitError_Init_VRHomeNotFound,
    VRInitError_Init_VRHomeStartupFailed,
    VRInitError_Init_RebootingBusy,
    VRInitError_Init_FirmwareUpdateBusy,
    VRInitError_Init_FirmwareRecoveryBusy,
    VRInitError_Init_USBServiceBusy,
    VRInitError_Init_VRWebHelperStartupFailed,
    VRInitError_Init_TrackerManagerInitFailed,
    VRInitError_Init_AlreadyRunning,
    VRInitError_Init_FailedForVrMonitor,
    VRInitError_Init_PropertyManagerInitFailed,
    VRInitError_Init_WebServerFailed,
    VRInitError_Init_IllegalTypeTransition,
    VRInitError_Init_MismatchedRuntimes,
    VRInitError_Init_InvalidProcessId,
    VRInitError_Init_VRServiceStartupFailed,
    VRInitError_Init_PrismNeedsNewDrivers,
    VRInitError_Init_PrismStartupTimedOut,
    VRInitError_Init_CouldNotStartPrism,
    VRInitError_Init_CreateDriverDirectDeviceFailed,
    VRInitError_Init_PrismExitedUnexpectedly,
    VRInitError_Driver_Failed,
    VRInitError_Driver_Unknown,
    VRInitError_Driver_HmdUnknown,
    VRInitError_Driver_NotLoaded,
    VRInitError_Driver_RuntimeOutOfDate,
    VRInitError_Driver_HmdInUse,
    VRInitError_Driver_NotCalibrated,
    VRInitError_Driver_CalibrationInvalid,
    VRInitError_Driver_HmdDisplayNotFound,
    VRInitError_Driver_TrackedDeviceInterfaceUnknown,
    VRInitError_Driver_HmdDriverIdOutOfBounds,
    VRInitError_Driver_HmdDisplayMirrored,
    VRInitError_Driver_HmdDisplayNotFoundLaptop,
    VRInitError_IPC_ServerInitFailed,
    VRInitError_IPC_ConnectFailed,
    VRInitError_IPC_SharedStateInitFailed,
    VRInitError_IPC_CompositorInitFailed,
    VRInitError_IPC_MutexInitFailed,
    VRInitError_IPC_Failed,
    VRInitError_IPC_CompositorConnectFailed,
    VRInitError_IPC_CompositorInvalidConnectResponse,
    VRInitError_IPC_ConnectFailedAfterMultipleAttempts,
    VRInitError_IPC_ConnectFailedAfterTargetExited,
    VRInitError_IPC_NamespaceUnavailable,
    VRInitError_Compositor_Failed,
    VRInitError_Compositor_D3D11HardwareRequired,
    VRInitError_Compositor_FirmwareRequiresUpdate,
    VRInitError_Compositor_OverlayInitFailed,
    VRInitError_Compositor_ScreenshotsInitFailed,
    VRInitError_Compositor_UnableToCreateDevice,
    VRInitError_Compositor_SharedStateIsNull,
    VRInitError_Compositor_NotificationManagerIsNull,
    VRInitError_Compositor_ResourceManagerClientIsNull,
    VRInitError_Compositor_MessageOverlaySharedStateInitFailure,
    VRInitError_Compositor_PropertiesInterfaceIsNull,
    VRInitError_Compositor_CreateFullscreenWindowFailed,
    VRInitError_Compositor_SettingsInterfaceIsNull,
    VRInitError_Compositor_FailedToShowWindow,
    VRInitError_Compositor_DistortInterfaceIsNull,
    VRInitError_Compositor_DisplayFrequencyFailure,
    VRInitError_Compositor_RendererInitializationFailed,
    VRInitError_Compositor_DXGIFactoryInterfaceIsNull,
    VRInitError_Compositor_DXGIFactoryCreateFailed,
    VRInitError_Compositor_DXGIFactoryQueryFailed,
    VRInitError_Compositor_InvalidAdapterDesktop,
    VRInitError_Compositor_InvalidHmdAttachment,
    VRInitError_Compositor_InvalidOutputDesktop,
    VRInitError_Compositor_InvalidDeviceProvided,
    VRInitError_Compositor_D3D11RendererInitializationFailed,
    VRInitError_Compositor_FailedToFindDisplayMode,
    VRInitError_Compositor_FailedToCreateSwapChain,
    VRInitError_Compositor_FailedToGetBackBuffer,
    VRInitError_Compositor_FailedToCreateRenderTarget,
    VRInitError_Compositor_FailedToCreateDXGI2SwapChain,
    VRInitError_Compositor_FailedtoGetDXGI2BackBuffer,
    VRInitError_Compositor_FailedToCreateDXGI2RenderTarget,
    VRInitError_Compositor_FailedToGetDXGIDeviceInterface,
    VRInitError_Compositor_SelectDisplayMode,
    VRInitError_Compositor_FailedToCreateNvAPIRenderTargets,
    VRInitError_Compositor_NvAPISetDisplayMode,
    VRInitError_Compositor_FailedToCreateDirectModeDisplay,
    VRInitError_Compositor_InvalidHmdPropertyContainer,
    VRInitError_Compositor_UpdateDisplayFrequency,
    VRInitError_Compositor_CreateRasterizerState,
    VRInitError_Compositor_CreateWireframeRasterizerState,
    VRInitError_Compositor_CreateSamplerState,
    VRInitError_Compositor_CreateClampToBorderSamplerState,
    VRInitError_Compositor_CreateAnisoSamplerState,
    VRInitError_Compositor_CreateOverlaySamplerState,
    VRInitError_Compositor_CreatePanoramaSamplerState,
    VRInitError_Compositor_CreateFontSamplerState,
    VRInitError_Compositor_CreateNoBlendState,
    VRInitError_Compositor_CreateBlendState,
    VRInitError_Compositor_CreateAlphaBlendState,
    VRInitError_Compositor_CreateBlendStateMaskR,
    VRInitError_Compositor_CreateBlendStateMaskG,
    VRInitError_Compositor_CreateBlendStateMaskB,
    VRInitError_Compositor_CreateDepthStencilState,
    VRInitError_Compositor_CreateDepthStencilStateNoWrite,
    VRInitError_Compositor_CreateDepthStencilStateNoDepth,
    VRInitError_Compositor_CreateFlushTexture,
    VRInitError_Compositor_CreateDistortionSurfaces,
    VRInitError_Compositor_CreateConstantBuffer,
    VRInitError_Compositor_CreateHmdPoseConstantBuffer,
    VRInitError_Compositor_CreateHmdPoseStagingConstantBuffer,
    VRInitError_Compositor_CreateSharedFrameInfoConstantBuffer,
    VRInitError_Compositor_CreateOverlayConstantBuffer,
    VRInitError_Compositor_CreateSceneTextureIndexConstantBuffer,
    VRInitError_Compositor_CreateReadableSceneTextureIndexConstantBuffer,
    VRInitError_Compositor_CreateLayerGraphicsTextureIndexConstantBuffer,
    VRInitError_Compositor_CreateLayerComputeTextureIndexConstantBuffer,
    VRInitError_Compositor_CreateLayerComputeSceneTextureIndexConstantBuffer,
    VRInitError_Compositor_CreateComputeHmdPoseConstantBuffer,
    VRInitError_Compositor_CreateGeomConstantBuffer,
    VRInitError_Compositor_CreatePanelMaskConstantBuffer,
    VRInitError_Compositor_CreatePixelSimUBO,
    VRInitError_Compositor_CreateMSAARenderTextures,
    VRInitError_Compositor_CreateResolveRenderTextures,
    VRInitError_Compositor_CreateComputeResolveRenderTextures,
    VRInitError_Compositor_CreateDriverDirectModeResolveTextures,
    VRInitError_Compositor_OpenDriverDirectModeResolveTextures,
    VRInitError_Compositor_CreateFallbackSyncTexture,
    VRInitError_Compositor_ShareFallbackSyncTexture,
    VRInitError_Compositor_CreateOverlayIndexBuffer,
    VRInitError_Compositor_CreateOverlayVertexBuffer,
    VRInitError_Compositor_CreateTextVertexBuffer,
    VRInitError_Compositor_CreateTextIndexBuffer,
    VRInitError_Compositor_CreateMirrorTextures,
    VRInitError_Compositor_CreateLastFrameRenderTexture,
    VRInitError_Compositor_CreateMirrorOverlay,
    VRInitError_Compositor_FailedToCreateVirtualDisplayBackbuffer,
    VRInitError_Compositor_DisplayModeNotSupported,
    VRInitError_Compositor_CreateOverlayInvalidCall,
    VRInitError_Compositor_CreateOverlayAlreadyInitialized,
    VRInitError_Compositor_FailedToCreateMailbox,
    VRInitError_Compositor_WindowInterfaceIsNull,
    VRInitError_Compositor_SystemLayerCreateInstance,
    VRInitError_Compositor_SystemLayerCreateSession,
    VRInitError_VendorSpecific_UnableToConnectToOculusRuntime,
    VRInitError_VendorSpecific_WindowsNotInDevMode,
    VRInitError_VendorSpecific_HmdFound_CantOpenDevice,
    VRInitError_VendorSpecific_HmdFound_UnableToRequestConfigStart,
    VRInitError_VendorSpecific_HmdFound_NoStoredConfig,
    VRInitError_VendorSpecific_HmdFound_ConfigTooBig,
    VRInitError_VendorSpecific_HmdFound_ConfigTooSmall,
    VRInitError_VendorSpecific_HmdFound_UnableToInitZLib,
    VRInitError_VendorSpecific_HmdFound_CantReadFirmwareVersion,
    VRInitError_VendorSpecific_HmdFound_UnableToSendUserDataStart,
    VRInitError_VendorSpecific_HmdFound_UnableToGetUserDataStart,
    VRInitError_VendorSpecific_HmdFound_UnableToGetUserDataNext,
    VRInitError_VendorSpecific_HmdFound_UserDataAddressRange,
    VRInitError_VendorSpecific_HmdFound_UserDataError,
    VRInitError_VendorSpecific_HmdFound_ConfigFailedSanityCheck,
    VRInitError_VendorSpecific_OculusRuntimeBadInstall,
    VRInitError_Steam_SteamInstallationNotFound,
    VRInitError_LastError,
}

#[allow(non_camel_case_types)]
#[derive(Clone, Copy, Debug, PartialEq, Eq, Structural)]
pub enum EVRScreenshotType {
    VRScreenshotType_None,
    VRScreenshotType_Mono,
    VRScreenshotType_Stereo,
    VRScreenshotType_Cubemap,
    VRScreenshotType_MonoPanorama,
    VRScreenshotType_StereoPanorama,
}

#[allow(non_camel_case_types)]
#[derive(Clone, Copy, Debug, PartialEq, Eq, Structural)]
pub enum EVRScreenshotPropertyFilenames {
    VRScreenshotPropertyFilenames_Preview,
    VRScreenshotPropertyFilenames_VR,
}

#[allow(non_camel_case_types)]
#[derive(Clone, Copy, Debug, PartialEq, Eq, Structural)]
pub enum EVRTrackedCameraError {
    VRTrackedCameraError_None,
    VRTrackedCameraError_OperationFailed,
    VRTrackedCameraError_InvalidHandle,
    VRTrackedCameraError_InvalidFrameHeaderVersion,
    VRTrackedCameraError_OutOfHandles,
    VRTrackedCameraError_IPCFailure,
    VRTrackedCameraError_NotSupportedForThisDevice,
    VRTrackedCameraError_SharedMemoryFailure,
    VRTrackedCameraError_FrameBufferingFailure,
    VRTrackedCameraError_StreamSetupFailure,
    VRTrackedCameraError_InvalidGLTextureId,
    VRTrackedCameraError_InvalidSharedTextureHandle,
    VRTrackedCameraError_FailedToGetGLTextureId,
    VRTrackedCameraError_SharedTextureFailure,
    VRTrackedCameraError_NoFrameAvailable,
    VRTrackedCameraError_InvalidArgument,
    VRTrackedCameraError_InvalidFrameBufferSize,
}

#[allow(non_camel_case_types)]
#[derive(Clone, Copy, Debug, PartialEq, Eq, Structural)]
pub enum EVRTrackedCameraFrameLayout {
    EVRTrackedCameraFrameLayout_Mono,
    EVRTrackedCameraFrameLayout_Stereo,
    EVRTrackedCameraFrameLayout_VerticalLayout,
    EVRTrackedCameraFrameLayout_HorizontalLayout,
}

#[allow(non_camel_case_types)]
#[derive(Clone, Copy, Debug, PartialEq, Eq, Structural)]
pub enum EVRTrackedCameraFrameType {
    VRTrackedCameraFrameType_Distorted,
    VRTrackedCameraFrameType_Undistorted,
    VRTrackedCameraFrameType_MaximumUndistorted,
    MAX_CAMERA_FRAME_TYPES,
}

#[allow(non_camel_case_types)]
#[derive(Clone, Copy, Debug, PartialEq, Eq, Structural)]
pub enum EVRDistortionFunctionType {
    VRDistortionFunctionType_None,
    VRDistortionFunctionType_FTheta,
    VRDistortionFunctionType_Extended_FTheta,
    MAX_DISTORTION_FUNCTION_TYPES,
}

pub const MAX_DISTORTION_FUNCTION_PARAMETERS: u32 = 8;

pub type TrackedCameraHandle = u64;

pub const INVALID_TRACKED_CAMERA_HANDLE: TrackedCameraHandle = 0;

pub type ScreenshotHandle = u32;

pub const SCREENSHOT_HANDLE_INVALID: ScreenshotHandle = 0;

#[allow(non_upper_case_globals)]
pub const VRCompositor_ReprojectionReason_Cpu: u32 = 0x01;

#[allow(non_upper_case_globals)]
pub const VRCompositor_ReprojectionReason_Gpu: u32 = 0x02;

#[allow(non_upper_case_globals)]
pub const VRCompositor_ReprojectionAsync: u32 = 0x04;

#[allow(non_upper_case_globals)]
pub const VRCompositor_ReprojectionMotion: u32 = 0x08;

#[allow(non_upper_case_globals)]
pub const VRCompositor_PredictionMask: u32 = 0xF0;

#[allow(non_upper_case_globals)]
pub const VRCompositor_ThrottleMask: u32 = 0xF00;

/// How many additional frames ahead the runtime predicted, read out of a
/// frame timing's reprojection flags.
pub fn vr_compositor_additional_predicted_frames(reprojection_flags: u32) -> (r: u32)
    ensures
        r == (reprojection_flags & VRCompositor_PredictionMask) >> 4u32,
{
    (reprojection_flags & VRCompositor_PredictionMask) >> 4u32
}

/// How many frames the compositor is throttling the application, read out of
/// a frame timing's reprojection flags.
pub fn vr_compositor_number_of_throttled_frames(reprojection_flags: u32) -> (r: u32)
    ensures
        r == (reprojection_flags & VRCompositor_ThrottleMask) >> 8u32,
{
    (reprojection_flags & VRCompositor_ThrottleMask) >> 8u32
}

#[allow(non_camel_case_types)]
#[derive(Clone, Copy, Debug, PartialEq, Eq, Structural)]
pub struct DriverDirectMode_FrameTiming {
    pub size: u32,
    pub num_frame_presents: u32,
    pub num_mis_presented: u32,
    pub num_dropped_frames: u32,
    pub reprojection_flags: u32,
}

pub const VRCOMPOSITOR_REPROJECTION_MOTION_ENABLED: u32 = 0x100;

pub const VRCOMPOSITOR_REPROJECTION_MOTION_FORCED_ON: u32 = 0x200;

pub const VRCOMPOSITOR_REPROJECTION_MOTION_APP_THROTTLED: u32 = 0x400;

#[allow(non_camel_case_types)]
#[derive(Clone, Copy, Debug, PartialEq, Eq, Structural)]
pub enum EVSync {
    VSync_None,
    VSync_WaitRender,
    VSync_NoWaitRender,
}

#[allow(non_camel_case_types)]
#[derive(Clone, Copy, Debug, PartialEq, Eq, Structural)]
pub enum EVRMuraCorrectionMode {
    EVRMuraCorrectionMode_Default,
    EVRMuraCorrectionMode_NoCorrection,
}

#[allow(non_camel_case_types)]
#[derive(Clone, Copy, Debug, PartialEq, Eq, Structural)]
pub enum Imu_OffScaleFlags {
    OffScale_AccelX,
    OffScale_AccelY,
    OffScale_AccelZ,
    OffScale_GyroX,
    OffScale_GyroY,
    OffScale_GyroZ,
}

} // verus!
