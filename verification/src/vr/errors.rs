use vstd::prelude::*;

use crate::vr::vrtypes::EVRInitError;

verus! {

/// Numeric code that the runtime uses for an initialization error on its
/// side of the boundary.
pub open spec fn spec_init_error_code(e: EVRInitError) -> u32 {
    match e {
        EVRInitError::VRInitError_None => 0,
        EVRInitError::VRInitError_Unknown => 1,
        EVRInitError::VRInitError_Init_InstallationNotFound => 100,
        EVRInitError::VRInitError_Init_InstallationCorrupt => 101,
        EVRInitError::VRInitError_Init_VRClientDLLNotFound => 102,
        EVRInitError::VRInitError_Init_FileNotFound => 103,
        EVRInitError::VRInitError_Init_FactoryNotFound => 104,
        EVRInitError::VRInitError_Init_InterfaceNotFound => 105,
        EVRInitError::VRInitError_Init_InvalidInterface => 106,
        EVRInitError::VRInitError_Init_UserConfigDirectoryInvalid => 107,
        EVRInitError::VRInitError_Init_HmdNotFound => 108,
        EVRInitError::VRInitError_Init_NotInitialized => 109,
        EVRInitError::VRInitError_Init_PathRegistryNotFound => 110,
        EVRInitError::VRInitError_Init_NoConfigPath => 111,
        EVRInitError::VRInitError_Init_NoLogPath => 112,
        EVRInitError::VRInitError_Init_PathRegistryNotWritable => 113,
        EVRInitError::VRInitError_Init_AppInfoInitFailed => 114,
        EVRInitError::VRInitError_Init_Retry => 115,
        EVRInitError::VRInitError_Init_InitCanceledByUser => 116,
        EVRInitError::VRInitError_Init_AnotherAppLaunching => 117,
        EVRInitError::VRInitError_Init_SettingsInitFailed => 118,
        EVRInitError::VRInitError_Init_ShuttingDown => 119,
        EVRInitError::VRInitError_Init_TooManyObjects => 120,
        EVRInitError::VRInitError_Init_NoServerForBackgroundApp => 121,
        EVRInitError::VRInitError_Init_NotSupportedWithCompositor => 122,
        EVRInitError::VRInitError_Init_NotAvailableToUtilityApps => 123,
        EVRInitError::VRInitError_Init_Internal => 124,
        EVRInitError::VRInitError_Init_HmdDriverIdIsNone => 125,
        EVRInitError::VRInitError_Init_HmdNotFoundPresenceFailed => 126,
        EVRInitError::VRInitError_Init_VRMonitorNotFound => 127,
        EVRInitError::VRInitError_Init_VRMonitorStartupFailed => 128,
        EVRInitError::VRInitError_Init_LowPowerWatchdogNotSupported => 129,
        EVRInitError::VRInitError_Init_InvalidApplicationType => 130,
        EVRInitError::VRInitError_Init_NotAvailableToWatchdogApps => 131,
        EVRInitError::VRInitError_Init_WatchdogDisabledInSettings => 132,
        EVRInitError::VRInitError_Init_VRDashboardNotFound => 133,
        EVRInitError::VRInitError_Init_VRDashboardStartupFailed => 134,
        EVRInitError::VRInitError_Init_VRHomeNotFound => 135,
        EVRInitError::VRInitError_Init_VRHomeStartupFailed => 136,
        EVRInitError::VRInitError_Init_RebootingBusy => 137,
        EVRInitError::VRInitError_Init_FirmwareUpdateBusy => 138,
        EVRInitError::VRInitError_Init_FirmwareRecoveryBusy => 139,
        EVRInitError::VRInitError_Init_USBServiceBusy => 140,
        EVRInitError::VRInitError_Init_VRWebHelperStartupFailed => 141,
        EVRInitError::VRInitError_Init_TrackerManagerInitFailed => 142,
        EVRInitError::VRInitError_Init_AlreadyRunning => 143,
        EVRInitError::VRInitError_Init_FailedForVrMonitor => 144,
        EVRInitError::VRInitError_Init_PropertyManagerInitFailed => 145,
        EVRInitError::VRInitError_Init_WebServerFailed => 146,
        EVRInitError::VRInitError_Init_IllegalTypeTransition => 147,
        EVRInitError::VRInitError_Init_MismatchedRuntimes => 148,
        EVRInitError::VRInitError_Init_InvalidProcessId => 149,
        EVRInitError::VRInitError_Init_VRServiceStartupFailed => 150,
        EVRInitError::VRInitError_Init_PrismNeedsNewDrivers => 151,
        EVRInitError::VRInitError_Init_PrismStartupTimedOut => 152,
        EVRInitError::VRInitError_Init_CouldNotStartPrism => 153,
        EVRInitError::VRInitError_Init_CreateDriverDirectDeviceFailed => 154,
        EVRInitError::VRInitError_Init_PrismExitedUnexpectedly => 155,
        EVRInitError::VRInitError_Driver_Failed => 200,
        EVRInitError::VRInitError_Driver_Unknown => 201,
        EVRInitError::VRInitError_Driver_HmdUnknown => 202,
        EVRInitError::VRInitError_Driver_NotLoaded => 203,
        EVRInitError::VRInitError_Driver_RuntimeOutOfDate => 204,
        EVRInitError::VRInitError_Driver_HmdInUse => 205,
        EVRInitError::VRInitError_Driver_NotCalibrated => 206,
        EVRInitError::VRInitError_Driver_CalibrationInvalid => 207,
        EVRInitError::VRInitError_Driver_HmdDisplayNotFound => 208,
        EVRInitError::VRInitError_Driver_TrackedDeviceInterfaceUnknown => 209,
        EVRInitError::VRInitError_Driver_HmdDriverIdOutOfBounds => 211,
        EVRInitError::VRInitError_Driver_HmdDisplayMirrored => 212,
        EVRInitError::VRInitError_Driver_HmdDisplayNotFoundLaptop => 213,
        EVRInitError::VRInitError_IPC_ServerInitFailed => 300,
        EVRInitError::VRInitError_IPC_ConnectFailed => 301,
        EVRInitError::VRInitError_IPC_SharedStateInitFailed => 302,
        EVRInitError::VRInitError_IPC_CompositorInitFailed => 303,
        EVRInitError::VRInitError_IPC_MutexInitFailed => 304,
        EVRInitError::VRInitError_IPC_Failed => 305,
        EVRInitError::VRInitError_IPC_CompositorConnectFailed => 306,
        EVRInitError::VRInitError_IPC_CompositorInvalidConnectResponse => 307,
        EVRInitError::VRInitError_IPC_ConnectFailedAfterMultipleAttempts => 308,
        EVRInitError::VRInitError_IPC_ConnectFailedAfterTargetExited => 309,
        EVRInitError::VRInitError_IPC_NamespaceUnavailable => 310,
        EVRInitError::VRInitError_Compositor_Failed => 400,
        EVRInitError::VRInitError_Compositor_D3D11HardwareRequired => 401,
        EVRInitError::VRInitError_Compositor_FirmwareRequiresUpdate => 402,
        EVRInitError::VRInitError_Compositor_OverlayInitFailed => 403,
        EVRInitError::VRInitError_Compositor_ScreenshotsInitFailed => 404,
        EVRInitError::VRInitError_Compositor_UnableToCreateDevice => 405,
        EVRInitError::VRInitError_Compositor_SharedStateIsNull => 406,
        EVRInitError::VRInitError_Compositor_NotificationManagerIsNull => 407,
        EVRInitError::VRInitError_Compositor_ResourceManagerClientIsNull => 408,
        EVRInitError::VRInitError_Compositor_MessageOverlaySharedStateInitFailure => 409,
        EVRInitError::VRInitError_Compositor_PropertiesInterfaceIsNull => 410,
        EVRInitError::VRInitError_Compositor_CreateFullscreenWindowFailed => 411,
        EVRInitError::VRInitError_Compositor_SettingsInterfaceIsNull => 412,
        EVRInitError::VRInitError_Compositor_FailedToShowWindow => 413,
        EVRInitError::VRInitError_Compositor_DistortInterfaceIsNull => 414,
        EVRInitError::VRInitError_Compositor_DisplayFrequencyFailure => 415,
        EVRInitError::VRInitError_Compositor_RendererInitializationFailed => 416,
        EVRInitError::VRInitError_Compositor_DXGIFactoryInterfaceIsNull => 417,
        EVRInitError::VRInitError_Compositor_DXGIFactoryCreateFailed => 418,
        EVRInitError::VRInitError_Compositor_DXGIFactoryQueryFailed => 419,
        EVRInitError::VRInitError_Compositor_InvalidAdapterDesktop => 420,
        EVRInitError::VRInitError_Compositor_InvalidHmdAttachment => 421,
        EVRInitError::VRInitError_Compositor_InvalidOutputDesktop => 422,
        EVRInitError::VRInitError_Compositor_InvalidDeviceProvided => 423,
        EVRInitError::VRInitError_Compositor_D3D11RendererInitializationFailed => 424,
        EVRInitError::VRInitError_Compositor_FailedToFindDisplayMode => 425,
        EVRInitError::VRInitError_Compositor_FailedToCreateSwapChain => 426,
        EVRInitError::VRInitError_Compositor_FailedToGetBackBuffer => 427,
        EVRInitError::VRInitError_Compositor_FailedToCreateRenderTarget => 428,
        EVRInitError::VRInitError_Compositor_FailedToCreateDXGI2SwapChain => 429,
        EVRInitError::VRInitError_Compositor_FailedtoGetDXGI2BackBuffer => 430,
        EVRInitError::VRInitError_Compositor_FailedToCreateDXGI2RenderTarget => 431,
        EVRInitError::VRInitError_Compositor_FailedToGetDXGIDeviceInterface => 432,
        EVRInitError::VRInitError_Compositor_SelectDisplayMode => 433,
        EVRInitError::VRInitError_Compositor_FailedToCreateNvAPIRenderTargets => 434,
        EVRInitError::VRInitError_Compositor_NvAPISetDisplayMode => 435,
        EVRInitError::VRInitError_Compositor_FailedToCreateDirectModeDisplay => 436,
        EVRInitError::VRInitError_Compositor_InvalidHmdPropertyContainer => 437,
        EVRInitError::VRInitError_Compositor_UpdateDisplayFrequency => 438,
        EVRInitError::VRInitError_Compositor_CreateRasterizerState => 439,
        EVRInitError::VRInitError_Compositor_CreateWireframeRasterizerState => 440,
        EVRInitError::VRInitError_Compositor_CreateSamplerState => 441,
        EVRInitError::VRInitError_Compositor_CreateClampToBorderSamplerState => 442,
        EVRInitError::VRInitError_Compositor_CreateAnisoSamplerState => 443,
        EVRInitError::VRInitError_Compositor_CreateOverlaySamplerState => 444,
        EVRInitError::VRInitError_Compositor_CreatePanoramaSamplerState => 445,
        EVRInitError::VRInitError_Compositor_CreateFontSamplerState => 446,
        EVRInitError::VRInitError_Compositor_CreateNoBlendState => 447,
        EVRInitError::VRInitError_Compositor_CreateBlendState => 448,
        EVRInitError::VRInitError_Compositor_CreateAlphaBlendState => 449,
        EVRInitError::VRInitError_Compositor_CreateBlendStateMaskR => 450,
        EVRInitError::VRInitError_Compositor_CreateBlendStateMaskG => 451,
        EVRInitError::VRInitError_Compositor_CreateBlendStateMaskB => 452,
        EVRInitError::VRInitError_Compositor_CreateDepthStencilState => 453,
        EVRInitError::VRInitError_Compositor_CreateDepthStencilStateNoWrite => 454,
        EVRInitError::VRInitError_Compositor_CreateDepthStencilStateNoDepth => 455,
        EVRInitError::VRInitError_Compositor_CreateFlushTexture => 456,
        EVRInitError::VRInitError_Compositor_CreateDistortionSurfaces => 457,
        EVRInitError::VRInitError_Compositor_CreateConstantBuffer => 458,
        EVRInitError::VRInitError_Compositor_CreateHmdPoseConstantBuffer => 459,
        EVRInitError::VRInitError_Compositor_CreateHmdPoseStagingConstantBuffer => 460,
        EVRInitError::VRInitError_Compositor_CreateSharedFrameInfoConstantBuffer => 461,
        EVRInitError::VRInitError_Compositor_CreateOverlayConstantBuffer => 462,
        EVRInitError::VRInitError_Compositor_CreateSceneTextureIndexConstantBuffer => 463,
        EVRInitError::VRInitError_Compositor_CreateReadableSceneTextureIndexConstantBuffer => 464,
        EVRInitError::VRInitError_Compositor_CreateLayerGraphicsTextureIndexConstantBuffer => 465,
        EVRInitError::VRInitError_Compositor_CreateLayerComputeTextureIndexConstantBuffer => 466,
        EVRInitError::VRInitError_Compositor_CreateLayerComputeSceneTextureIndexConstantBuffer => 467,
        EVRInitError::VRInitError_Compositor_CreateComputeHmdPoseConstantBuffer => 468,
        EVRInitError::VRInitError_Compositor_CreateGeomConstantBuffer => 469,
        EVRInitError::VRInitError_Compositor_CreatePanelMaskConstantBuffer => 470,
        EVRInitError::VRInitError_Compositor_CreatePixelSimUBO => 471,
        EVRInitError::VRInitError_Compositor_CreateMSAARenderTextures => 472,
        EVRInitError::VRInitError_Compositor_CreateResolveRenderTextures => 473,
        EVRInitError::VRInitError_Compositor_CreateComputeResolveRenderTextures => 474,
        EVRInitError::VRInitError_Compositor_CreateDriverDirectModeResolveTextures => 475,
        EVRInitError::VRInitError_Compositor_OpenDriverDirectModeResolveTextures => 476,
        EVRInitError::VRInitError_Compositor_CreateFallbackSyncTexture => 477,
        EVRInitError::VRInitError_Compositor_ShareFallbackSyncTexture => 478,
        EVRInitError::VRInitError_Compositor_CreateOverlayIndexBuffer => 479,
        EVRInitError::VRInitError_Compositor_CreateOverlayVertexBuffer => 480,
        EVRInitError::VRInitError_Compositor_CreateTextVertexBuffer => 481,
        EVRInitError::VRInitError_Compositor_CreateTextIndexBuffer => 482,
        EVRInitError::VRInitError_Compositor_CreateMirrorTextures => 483,
        EVRInitError::VRInitError_Compositor_CreateLastFrameRenderTexture => 484,
        EVRInitError::VRInitError_Compositor_CreateMirrorOverlay => 485,
        EVRInitError::VRInitError_Compositor_FailedToCreateVirtualDisplayBackbuffer => 486,
        EVRInitError::VRInitError_Compositor_DisplayModeNotSupported => 487,
        EVRInitError::VRInitError_Compositor_CreateOverlayInvalidCall => 488,
        EVRInitError::VRInitError_Compositor_CreateOverlayAlreadyInitialized => 489,
        EVRInitError::VRInitError_Compositor_FailedToCreateMailbox => 490,
        EVRInitError::VRInitError_Compositor_WindowInterfaceIsNull => 491,
        EVRInitError::VRInitError_Compositor_SystemLayerCreateInstance => 492,
        EVRInitError::VRInitError_Compositor_SystemLayerCreateSession => 493,
        EVRInitError::VRInitError_VendorSpecific_UnableToConnectToOculusRuntime => 1000,
        EVRInitError::VRInitError_VendorSpecific_WindowsNotInDevMode => 1001,
        EVRInitError::VRInitError_VendorSpecific_HmdFound_CantOpenDevice => 1101,
        EVRInitError::VRInitError_VendorSpecific_HmdFound_UnableToRequestConfigStart => 1102,
        EVRInitError::VRInitError_VendorSpecific_HmdFound_NoStoredConfig => 1103,
        EVRInitError::VRInitError_VendorSpecific_HmdFound_ConfigTooBig => 1104,
        EVRInitError::VRInitError_VendorSpecific_HmdFound_ConfigTooSmall => 1105,
        EVRInitError::VRInitError_VendorSpecific_HmdFound_UnableToInitZLib => 1106,
        EVRInitError::VRInitError_VendorSpecific_HmdFound_CantReadFirmwareVersion => 1107,
        EVRInitError::VRInitError_VendorSpecific_HmdFound_UnableToSendUserDataStart => 1108,
        EVRInitError::VRInitError_VendorSpecific_HmdFound_UnableToGetUserDataStart => 1109,
        EVRInitError::VRInitError_VendorSpecific_HmdFound_UnableToGetUserDataNext => 1110,
        EVRInitError::VRInitError_VendorSpecific_HmdFound_UserDataAddressRange => 1111,
        EVRInitError::VRInitError_VendorSpecific_HmdFound_UserDataError => 1112,
        EVRInitError::VRInitError_VendorSpecific_HmdFound_ConfigFailedSanityCheck => 1113,
        EVRInitError::VRInitError_VendorSpecific_OculusRuntimeBadInstall => 1114,
        EVRInitError::VRInitError_Steam_SteamInstallationNotFound => 2000,
        EVRInitError::VRInitError_LastError => 2001,
    }
}

/// Numeric code of an initialization error.
pub fn init_error_code(e: EVRInitError) -> (code: u32)
    ensures
        code == spec_init_error_code(e),
{
    match e {
        EVRInitError::VRInitError_None => 0,
        EVRInitError::VRInitError_Unknown => 1,
        EVRInitError::VRInitError_Init_InstallationNotFound => 100,
        EVRInitError::VRInitError_Init_InstallationCorrupt => 101,
        EVRInitError::VRInitError_Init_VRClientDLLNotFound => 102,
        EVRInitError::VRInitError_Init_FileNotFound => 103,
        EVRInitError::VRInitError_Init_FactoryNotFound => 104,
        EVRInitError::VRInitError_Init_InterfaceNotFound => 105,
        EVRInitError::VRInitError_Init_InvalidInterface => 106,
        EVRInitError::VRInitError_Init_UserConfigDirectoryInvalid => 107,
        EVRInitError::VRInitError_Init_HmdNotFound => 108,
        EVRInitError::VRInitError_Init_NotInitialized => 109,
        EVRInitError::VRInitError_Init_PathRegistryNotFound => 110,
        EVRInitError::VRInitError_Init_NoConfigPath => 111,
        EVRInitError::VRInitError_Init_NoLogPath => 112,
        EVRInitError::VRInitError_Init_PathRegistryNotWritable => 113,
        EVRInitError::VRInitError_Init_AppInfoInitFailed => 114,
        EVRInitError::VRInitError_Init_Retry => 115,
        EVRInitError::VRInitError_Init_InitCanceledByUser => 116,
        EVRInitError::VRInitError_Init_AnotherAppLaunching => 117,
        EVRInitError::VRInitError_Init_SettingsInitFailed => 118,
        EVRInitError::VRInitError_Init_ShuttingDown => 119,
        EVRInitError::VRInitError_Init_TooManyObjects => 120,
        EVRInitError::VRInitError_Init_NoServerForBackgroundApp => 121,
        EVRInitError::VRInitError_Init_NotSupportedWithCompositor => 122,
        EVRInitError::VRInitError_Init_NotAvailableToUtilityApps => 123,
        EVRInitError::VRInitError_Init_Internal => 124,
        EVRInitError::VRInitError_Init_HmdDriverIdIsNone => 125,
        EVRInitError::VRInitError_Init_HmdNotFoundPresenceFailed => 126,
        EVRInitError::VRInitError_Init_VRMonitorNotFound => 127,
        EVRInitError::VRInitError_Init_VRMonitorStartupFailed => 128,
        EVRInitError::VRInitError_Init_LowPowerWatchdogNotSupported => 129,
        EVRInitError::VRInitError_Init_InvalidApplicationType => 130,
        EVRInitError::VRInitError_Init_NotAvailableToWatchdogApps => 131,
        EVRInitError::VRInitError_Init_WatchdogDisabledInSettings => 132,
        EVRInitError::VRInitError_Init_VRDashboardNotFound => 133,
        EVRInitError::VRInitError_Init_VRDashboardStartupFailed => 134,
        EVRInitError::VRInitError_Init_VRHomeNotFound => 135,
        EVRInitError::VRInitError_Init_VRHomeStartupFailed => 136,
        EVRInitError::VRInitError_Init_RebootingBusy => 137,
        EVRInitError::VRInitError_Init_FirmwareUpdateBusy => 138,
        EVRInitError::VRInitError_Init_FirmwareRecoveryBusy => 139,
        EVRInitError::VRInitError_Init_USBServiceBusy => 140,
        EVRInitError::VRInitError_Init_VRWebHelperStartupFailed => 141,
        EVRInitError::VRInitError_Init_TrackerManagerInitFailed => 142,
        EVRInitError::VRInitError_Init_AlreadyRunning => 143,
        EVRInitError::VRInitError_Init_FailedForVrMonitor => 144,
        EVRInitError::VRInitError_Init_PropertyManagerInitFailed => 145,
        EVRInitError::VRInitError_Init_WebServerFailed => 146,
        EVRInitError::VRInitError_Init_IllegalTypeTransition => 147,
        EVRInitError::VRInitError_Init_MismatchedRuntimes => 148,
        EVRInitError::VRInitError_Init_InvalidProcessId => 149,
        EVRInitError::VRInitError_Init_VRServiceStartupFailed => 150,
        EVRInitError::VRInitError_Init_PrismNeedsNewDrivers => 151,
        EVRInitError::VRInitError_Init_PrismStartupTimedOut => 152,
        EVRInitError::VRInitError_Init_CouldNotStartPrism => 153,
        EVRInitError::VRInitError_Init_CreateDriverDirectDeviceFailed => 154,
        EVRInitError::VRInitError_Init_PrismExitedUnexpectedly => 155,
        EVRInitError::VRInitError_Driver_Failed => 200,
        EVRInitError::VRInitError_Driver_Unknown => 201,
        EVRInitError::VRInitError_Driver_HmdUnknown => 202,
        EVRInitError::VRInitError_Driver_NotLoaded => 203,
        EVRInitError::VRInitError_Driver_RuntimeOutOfDate => 204,
        EVRInitError::VRInitError_Driver_HmdInUse => 205,
        EVRInitError::VRInitError_Driver_NotCalibrated => 206,
        EVRInitError::VRInitError_Driver_CalibrationInvalid => 207,
        EVRInitError::VRInitError_Driver_HmdDisplayNotFound => 208,
        EVRInitError::VRInitError_Driver_TrackedDeviceInterfaceUnknown => 209,
        EVRInitError::VRInitError_Driver_HmdDriverIdOutOfBounds => 211,
        EVRInitError::VRInitError_Driver_HmdDisplayMirrored => 212,
        EVRInitError::VRInitError_Driver_HmdDisplayNotFoundLaptop => 213,
        EVRInitError::VRInitError_IPC_ServerInitFailed => 300,
        EVRInitError::VRInitError_IPC_ConnectFailed => 301,
        EVRInitError::VRInitError_IPC_SharedStateInitFailed => 302,
        EVRInitError::VRInitError_IPC_CompositorInitFailed => 303,
        EVRInitError::VRInitError_IPC_MutexInitFailed => 304,
        EVRInitError::VRInitError_IPC_Failed => 305,
        EVRInitError::VRInitError_IPC_CompositorConnectFailed => 306,
        EVRInitError::VRInitError_IPC_CompositorInvalidConnectResponse => 307,
        EVRInitError::VRInitError_IPC_ConnectFailedAfterMultipleAttempts => 308,
        EVRInitError::VRInitError_IPC_ConnectFailedAfterTargetExited => 309,
        EVRInitError::VRInitError_IPC_NamespaceUnavailable => 310,
        EVRInitError::VRInitError_Compositor_Failed => 400,
        EVRInitError::VRInitError_Compositor_D3D11HardwareRequired => 401,
        EVRInitError::VRInitError_Compositor_FirmwareRequiresUpdate => 402,
        EVRInitError::VRInitError_Compositor_OverlayInitFailed => 403,
        EVRInitError::VRInitError_Compositor_ScreenshotsInitFailed => 404,
        EVRInitError::VRInitError_Compositor_UnableToCreateDevice => 405,
        EVRInitError::VRInitError_Compositor_SharedStateIsNull => 406,
        EVRInitError::VRInitError_Compositor_NotificationManagerIsNull => 407,
        EVRInitError::VRInitError_Compositor_ResourceManagerClientIsNull => 408,
        EVRInitError::VRInitError_Compositor_MessageOverlaySharedStateInitFailure => 409,
        EVRInitError::VRInitError_Compositor_PropertiesInterfaceIsNull => 410,
        EVRInitError::VRInitError_Compositor_CreateFullscreenWindowFailed => 411,
        EVRInitError::VRInitError_Compositor_SettingsInterfaceIsNull => 412,
        EVRInitError::VRInitError_Compositor_FailedToShowWindow => 413,
        EVRInitError::VRInitError_Compositor_DistortInterfaceIsNull => 414,
        EVRInitError::VRInitError_Compositor_DisplayFrequencyFailure => 415,
        EVRInitError::VRInitError_Compositor_RendererInitializationFailed => 416,
        EVRInitError::VRInitError_Compositor_DXGIFactoryInterfaceIsNull => 417,
        EVRInitError::VRInitError_Compositor_DXGIFactoryCreateFailed => 418,
        EVRInitError::VRInitError_Compositor_DXGIFactoryQueryFailed => 419,
        EVRInitError::VRInitError_Compositor_InvalidAdapterDesktop => 420,
        EVRInitError::VRInitError_Compositor_InvalidHmdAttachment => 421,
        EVRInitError::VRInitError_Compositor_InvalidOutputDesktop => 422,
        EVRInitError::VRInitError_Compositor_InvalidDeviceProvided => 423,
        EVRInitError::VRInitError_Compositor_D3D11RendererInitializationFailed => 424,
        EVRInitError::VRInitError_Compositor_FailedToFindDisplayMode => 425,
        EVRInitError::VRInitError_Compositor_FailedToCreateSwapChain => 426,
        EVRInitError::VRInitError_Compositor_FailedToGetBackBuffer => 427,
        EVRInitError::VRInitError_Compositor_FailedToCreateRenderTarget => 428,
        EVRInitError::VRInitError_Compositor_FailedToCreateDXGI2SwapChain => 429,
        EVRInitError::VRInitError_Compositor_FailedtoGetDXGI2BackBuffer => 430,
        EVRInitError::VRInitError_Compositor_FailedToCreateDXGI2RenderTarget => 431,
        EVRInitError::VRInitError_Compositor_FailedToGetDXGIDeviceInterface => 432,
        EVRInitError::VRInitError_Compositor_SelectDisplayMode => 433,
        EVRInitError::VRInitError_Compositor_FailedToCreateNvAPIRenderTargets => 434,
        EVRInitError::VRInitError_Compositor_NvAPISetDisplayMode => 435,
        EVRInitError::VRInitError_Compositor_FailedToCreateDirectModeDisplay => 436,
        EVRInitError::VRInitError_Compositor_InvalidHmdPropertyContainer => 437,
        EVRInitError::VRInitError_Compositor_UpdateDisplayFrequency => 438,
        EVRInitError::VRInitError_Compositor_CreateRasterizerState => 439,
        EVRInitError::VRInitError_Compositor_CreateWireframeRasterizerState => 440,
        EVRInitError::VRInitError_Compositor_CreateSamplerState => 441,
        EVRInitError::VRInitError_Compositor_CreateClampToBorderSamplerState => 442,
        EVRInitError::VRInitError_Compositor_CreateAnisoSamplerState => 443,
        EVRInitError::VRInitError_Compositor_CreateOverlaySamplerState => 444,
        EVRInitError::VRInitError_Compositor_CreatePanoramaSamplerState => 445,
        EVRInitError::VRInitError_Compositor_CreateFontSamplerState => 446,
        EVRInitError::VRInitError_Compositor_CreateNoBlendState => 447,
        EVRInitError::VRInitError_Compositor_CreateBlendState => 448,
        EVRInitError::VRInitError_Compositor_CreateAlphaBlendState => 449,
        EVRInitError::VRInitError_Compositor_CreateBlendStateMaskR => 450,
        EVRInitError::VRInitError_Compositor_CreateBlendStateMaskG => 451,
        EVRInitError::VRInitError_Compositor_CreateBlendStateMaskB => 452,
        EVRInitError::VRInitError_Compositor_CreateDepthStencilState => 453,
        EVRInitError::VRInitError_Compositor_CreateDepthStencilStateNoWrite => 454,
        EVRInitError::VRInitError_Compositor_CreateDepthStencilStateNoDepth => 455,
        EVRInitError::VRInitError_Compositor_CreateFlushTexture => 456,
        EVRInitError::VRInitError_Compositor_CreateDistortionSurfaces => 457,
        EVRInitError::VRInitError_Compositor_CreateConstantBuffer => 458,
        EVRInitError::VRInitError_Compositor_CreateHmdPoseConstantBuffer => 459,
        EVRInitError::VRInitError_Compositor_CreateHmdPoseStagingConstantBuffer => 460,
        EVRInitError::VRInitError_Compositor_CreateSharedFrameInfoConstantBuffer => 461,
        EVRInitError::VRInitError_Compositor_CreateOverlayConstantBuffer => 462,
        EVRInitError::VRInitError_Compositor_CreateSceneTextureIndexConstantBuffer => 463,
        EVRInitError::VRInitError_Compositor_CreateReadableSceneTextureIndexConstantBuffer => 464,
        EVRInitError::VRInitError_Compositor_CreateLayerGraphicsTextureIndexConstantBuffer => 465,
        EVRInitError::VRInitError_Compositor_CreateLayerComputeTextureIndexConstantBuffer => 466,
        EVRInitError::VRInitError_Compositor_CreateLayerComputeSceneTextureIndexConstantBuffer => 467,
        EVRInitError::VRInitError_Compositor_CreateComputeHmdPoseConstantBuffer => 468,
        EVRInitError::VRInitError_Compositor_CreateGeomConstantBuffer => 469,
        EVRInitError::VRInitError_Compositor_CreatePanelMaskConstantBuffer => 470,
        EVRInitError::VRInitError_Compositor_CreatePixelSimUBO => 471,
        EVRInitError::VRInitError_Compositor_CreateMSAARenderTextures => 472,
        EVRInitError::VRInitError_Compositor_CreateResolveRenderTextures => 473,
        EVRInitError::VRInitError_Compositor_CreateComputeResolveRenderTextures => 474,
        EVRInitError::VRInitError_Compositor_CreateDriverDirectModeResolveTextures => 475,
        EVRInitError::VRInitError_Compositor_OpenDriverDirectModeResolveTextures => 476,
        EVRInitError::VRInitError_Compositor_CreateFallbackSyncTexture => 477,
        EVRInitError::VRInitError_Compositor_ShareFallbackSyncTexture => 478,
        EVRInitError::VRInitError_Compositor_CreateOverlayIndexBuffer => 479,
        EVRInitError::VRInitError_Compositor_CreateOverlayVertexBuffer => 480,
        EVRInitError::VRInitError_Compositor_CreateTextVertexBuffer => 481,
        EVRInitError::VRInitError_Compositor_CreateTextIndexBuffer => 482,
        EVRInitError::VRInitError_Compositor_CreateMirrorTextures => 483,
        EVRInitError::VRInitError_Compositor_CreateLastFrameRenderTexture => 484,
        EVRInitError::VRInitError_Compositor_CreateMirrorOverlay => 485,
        EVRInitError::VRInitError_Compositor_FailedToCreateVirtualDisplayBackbuffer => 486,
        EVRInitError::VRInitError_Compositor_DisplayModeNotSupported => 487,
        EVRInitError::VRInitError_Compositor_CreateOverlayInvalidCall => 488,
        EVRInitError::VRInitError_Compositor_CreateOverlayAlreadyInitialized => 489,
        EVRInitError::VRInitError_Compositor_FailedToCreateMailbox => 490,
        EVRInitError::VRInitError_Compositor_WindowInterfaceIsNull => 491,
        EVRInitError::VRInitError_Compositor_SystemLayerCreateInstance => 492,
        EVRInitError::VRInitError_Compositor_SystemLayerCreateSession => 493,
        EVRInitError::VRInitError_VendorSpecific_UnableToConnectToOculusRuntime => 1000,
        EVRInitError::VRInitError_VendorSpecific_WindowsNotInDevMode => 1001,
        EVRInitError::VRInitError_VendorSpecific_HmdFound_CantOpenDevice => 1101,
        EVRInitError::VRInitError_VendorSpecific_HmdFound_UnableToRequestConfigStart => 1102,
        EVRInitError::VRInitError_VendorSpecific_HmdFound_NoStoredConfig => 1103,
        EVRInitError::VRInitError_VendorSpecific_HmdFound_ConfigTooBig => 1104,
        EVRInitError::VRInitError_VendorSpecific_HmdFound_ConfigTooSmall => 1105,
        EVRInitError::VRInitError_VendorSpecific_HmdFound_UnableToInitZLib => 1106,
        EVRInitError::VRInitError_VendorSpecific_HmdFound_CantReadFirmwareVersion => 1107,
        EVRInitError::VRInitError_VendorSpecific_HmdFound_UnableToSendUserDataStart => 1108,
        EVRInitError::VRInitError_VendorSpecific_HmdFound_UnableToGetUserDataStart => 1109,
        EVRInitError::VRInitError_VendorSpecific_HmdFound_UnableToGetUserDataNext => 1110,
        EVRInitError::VRInitError_VendorSpecific_HmdFound_UserDataAddressRange => 1111,
        EVRInitError::VRInitError_VendorSpecific_HmdFound_UserDataError => 1112,
        EVRInitError::VRInitError_VendorSpecific_HmdFound_ConfigFailedSanityCheck => 1113,
        EVRInitError::VRInitError_VendorSpecific_OculusRuntimeBadInstall => 1114,
        EVRInitError::VRInitError_Steam_SteamInstallationNotFound => 2000,
        EVRInitError::VRInitError_LastError => 2001,
    }
}

/// The initialization error a numeric code stands for, if the code is one
/// the runtime defines.
pub open spec fn spec_init_error_from_code(code: u32) -> Option<EVRInitError> {
    if code == 0 {
        Some(EVRInitError::VRInitError_None)
    } else if code == 1 {
        Some(EVRInitError::VRInitError_Unknown)
    } else if code == 100 {
        Some(EVRInitError::VRInitError_Init_InstallationNotFound)
    } else if code == 101 {
        Some(EVRInitError::VRInitError_Init_InstallationCorrupt)
    } else if code == 102 {
        Some(EVRInitError::VRInitError_Init_VRClientDLLNotFound)
    } else if code == 103 {
        Some(EVRInitError::VRInitError_Init_FileNotFound)
    } else if code == 104 {
        Some(EVRInitError::VRInitError_Init_FactoryNotFound)
    } else if code == 105 {
        Some(EVRInitError::VRInitError_Init_InterfaceNotFound)
    } else if code == 106 {
        Some(EVRInitError::VRInitError_Init_InvalidInterface)
    } else if code == 107 {
        Some(EVRInitError::VRInitError_Init_UserConfigDirectoryInvalid)
    } else if code == 108 {
        Some(EVRInitError::VRInitError_Init_HmdNotFound)
    } else if code == 109 {
        Some(EVRInitError::VRInitError_Init_NotInitialized)
    } else if code == 110 {
        Some(EVRInitError::VRInitError_Init_PathRegistryNotFound)
    } else if code == 111 {
        Some(EVRInitError::VRInitError_Init_NoConfigPath)
    } else if code == 112 {
        Some(EVRInitError::VRInitError_Init_NoLogPath)
    } else if code == 113 {
        Some(EVRInitError::VRInitError_Init_PathRegistryNotWritable)
    } else if code == 114 {
        Some(EVRInitError::VRInitError_Init_AppInfoInitFailed)
    } else if code == 115 {
        Some(EVRInitError::VRInitError_Init_Retry)
    } else if code == 116 {
        Some(EVRInitError::VRInitError_Init_InitCanceledByUser)
    } else if code == 117 {
        Some(EVRInitError::VRInitError_Init_AnotherAppLaunching)
    } else if code == 118 {
        Some(EVRInitError::VRInitError_Init_SettingsInitFailed)
    } else if code == 119 {
        Some(EVRInitError::VRInitError_Init_ShuttingDown)
    } else if code == 120 {
        Some(EVRInitError::VRInitError_Init_TooManyObjects)
    } else if code == 121 {
        Some(EVRInitError::VRInitError_Init_NoServerForBackgroundApp)
    } else if code == 122 {
        Some(EVRInitError::VRInitError_Init_NotSupportedWithCompositor)
    } else if code == 123 {
        Some(EVRInitError::VRInitError_Init_NotAvailableToUtilityApps)
    } else if code == 124 {
        Some(EVRInitError::VRInitError_Init_Internal)
    } else if code == 125 {
        Some(EVRInitError::VRInitError_Init_HmdDriverIdIsNone)
    } else if code == 126 {
        Some(EVRInitError::VRInitError_Init_HmdNotFoundPresenceFailed)
    } else if code == 127 {
        Some(EVRInitError::VRInitError_Init_VRMonitorNotFound)
    } else if code == 128 {
        Some(EVRInitError::VRInitError_Init_VRMonitorStartupFailed)
    } else if code == 129 {
        Some(EVRInitError::VRInitError_Init_LowPowerWatchdogNotSupported)
    } else if code == 130 {
        Some(EVRInitError::VRInitError_Init_InvalidApplicationType)
    } else if code == 131 {
        Some(EVRInitError::VRInitError_Init_NotAvailableToWatchdogApps)
    } else if code == 132 {
        Some(EVRInitError::VRInitError_Init_WatchdogDisabledInSettings)
    } else if code == 133 {
        Some(EVRInitError::VRInitError_Init_VRDashboardNotFound)
    } else if code == 134 {
        Some(EVRInitError::VRInitError_Init_VRDashboardStartupFailed)
    } else if code == 135 {
        Some(EVRInitError::VRInitError_Init_VRHomeNotFound)
    } else if code == 136 {
        Some(EVRInitError::VRInitError_Init_VRHomeStartupFailed)
    } else if code == 137 {
        Some(EVRInitError::VRInitError_Init_RebootingBusy)
    } else if code == 138 {
        Some(EVRInitError::VRInitError_Init_FirmwareUpdateBusy)
    } else if code == 139 {
        Some(EVRInitError::VRInitError_Init_FirmwareRecoveryBusy)
    } else if code == 140 {
        Some(EVRInitError::VRInitError_Init_USBServiceBusy)
    } else if code == 141 {
        Some(EVRInitError::VRInitError_Init_VRWebHelperStartupFailed)
    } else if code == 142 {
        Some(EVRInitError::VRInitError_Init_TrackerManagerInitFailed)
    } else if code == 143 {
        Some(EVRInitError::VRInitError_Init_AlreadyRunning)
    } else if code == 144 {
        Some(EVRInitError::VRInitError_Init_FailedForVrMonitor)
    } else if code == 145 {
        Some(EVRInitError::VRInitError_Init_PropertyManagerInitFailed)
    } else if code == 146 {
        Some(EVRInitError::VRInitError_Init_WebServerFailed)
    } else if code == 147 {
        Some(EVRInitError::VRInitError_Init_IllegalTypeTransition)
    } else if code == 148 {
        Some(EVRInitError::VRInitError_Init_MismatchedRuntimes)
    } else if code == 149 {
        Some(EVRInitError::VRInitError_Init_InvalidProcessId)
    } else if code == 150 {
        Some(EVRInitError::VRInitError_Init_VRServiceStartupFailed)
    } else if code == 151 {
        Some(EVRInitError::VRInitError_Init_PrismNeedsNewDrivers)
    } else if code == 152 {
        Some(EVRInitError::VRInitError_Init_PrismStartupTimedOut)
    } else if code == 153 {
        Some(EVRInitError::VRInitError_Init_CouldNotStartPrism)
    } else if code == 154 {
        Some(EVRInitError::VRInitError_Init_CreateDriverDirectDeviceFailed)
    } else if code == 155 {
        Some(EVRInitError::VRInitError_Init_PrismExitedUnexpectedly)
    } else if code == 200 {
        Some(EVRInitError::VRInitError_Driver_Failed)
    } else if code == 201 {
        Some(EVRInitError::VRInitError_Driver_Unknown)
    } else if code == 202 {
        Some(EVRInitError::VRInitError_Driver_HmdUnknown)
    } else if code == 203 {
        Some(EVRInitError::VRInitError_Driver_NotLoaded)
    } else if code == 204 {
        Some(EVRInitError::VRInitError_Driver_RuntimeOutOfDate)
    } else if code == 205 {
        Some(EVRInitError::VRInitError_Driver_HmdInUse)
    } else if code == 206 {
        Some(EVRInitError::VRInitError_Driver_NotCalibrated)
    } else if code == 207 {
        Some(EVRInitError::VRInitError_Driver_CalibrationInvalid)
    } else if code == 208 {
        Some(EVRInitError::VRInitError_Driver_HmdDisplayNotFound)
    } else if code == 209 {
        Some(EVRInitError::VRInitError_Driver_TrackedDeviceInterfaceUnknown)
    } else if code == 211 {
        Some(EVRInitError::VRInitError_Driver_HmdDriverIdOutOfBounds)
    } else if code == 212 {
        Some(EVRInitError::VRInitError_Driver_HmdDisplayMirrored)
    } else if code == 213 {
        Some(EVRInitError::VRInitError_Driver_HmdDisplayNotFoundLaptop)
    } else if code == 300 {
        Some(EVRInitError::VRInitError_IPC_ServerInitFailed)
    } else if code == 301 {
        Some(EVRInitError::VRInitError_IPC_ConnectFailed)
    } else if code == 302 {
        Some(EVRInitError::VRInitError_IPC_SharedStateInitFailed)
    } else if code == 303 {
        Some(EVRInitError::VRInitError_IPC_CompositorInitFailed)
    } else if code == 304 {
        Some(EVRInitError::VRInitError_IPC_MutexInitFailed)
    } else if code == 305 {
        Some(EVRInitError::VRInitError_IPC_Failed)
    } else if code == 306 {
        Some(EVRInitError::VRInitError_IPC_CompositorConnectFailed)
    } else if code == 307 {
        Some(EVRInitError::VRInitError_IPC_CompositorInvalidConnectResponse)
    } else if code == 308 {
        Some(EVRInitError::VRInitError_IPC_ConnectFailedAfterMultipleAttempts)
    } else if code == 309 {
        Some(EVRInitError::VRInitError_IPC_ConnectFailedAfterTargetExited)
    } else if code == 310 {
        Some(EVRInitError::VRInitError_IPC_NamespaceUnavailable)
    } else if code == 400 {
        Some(EVRInitError::VRInitError_Compositor_Failed)
    } else if code == 401 {
        Some(EVRInitError::VRInitError_Compositor_D3D11HardwareRequired)
    } else if code == 402 {
        Some(EVRInitError::VRInitError_Compositor_FirmwareRequiresUpdate)
    } else if code == 403 {
        Some(EVRInitError::VRInitError_Compositor_OverlayInitFailed)
    } else if code == 404 {
        Some(EVRInitError::VRInitError_Compositor_ScreenshotsInitFailed)
    } else if code == 405 {
        Some(EVRInitError::VRInitError_Compositor_UnableToCreateDevice)
    } else if code == 406 {
        Some(EVRInitError::VRInitError_Compositor_SharedStateIsNull)
    } else if code == 407 {
        Some(EVRInitError::VRInitError_Compositor_NotificationManagerIsNull)
    } else if code == 408 {
        Some(EVRInitError::VRInitError_Compositor_ResourceManagerClientIsNull)
    } else if code == 409 {
        Some(EVRInitError::VRInitError_Compositor_MessageOverlaySharedStateInitFailure)
    } else if code == 410 {
        Some(EVRInitError::VRInitError_Compositor_PropertiesInterfaceIsNull)
    } else if code == 411 {
        Some(EVRInitError::VRInitError_Compositor_CreateFullscreenWindowFailed)
    } else if code == 412 {
        Some(EVRInitError::VRInitError_Compositor_SettingsInterfaceIsNull)
    } else if code == 413 {
        Some(EVRInitError::VRInitError_Compositor_FailedToShowWindow)
    } else if code == 414 {
        Some(EVRInitError::VRInitError_Compositor_DistortInterfaceIsNull)
    } else if code == 415 {
        Some(EVRInitError::VRInitError_Compositor_DisplayFrequencyFailure)
    } else if code == 416 {
        Some(EVRInitError::VRInitError_Compositor_RendererInitializationFailed)
    } else if code == 417 {
        Some(EVRInitError::VRInitError_Compositor_DXGIFactoryInterfaceIsNull)
    } else if code == 418 {
        Some(EVRInitError::VRInitError_Compositor_DXGIFactoryCreateFailed)
    } else if code == 419 {
        Some(EVRInitError::VRInitError_Compositor_DXGIFactoryQueryFailed)
    } else if code == 420 {
        Some(EVRInitError::VRInitError_Compositor_InvalidAdapterDesktop)
    } else if code == 421 {
        Some(EVRInitError::VRInitError_Compositor_InvalidHmdAttachment)
    } else if code == 422 {
        Some(EVRInitError::VRInitError_Compositor_InvalidOutputDesktop)
    } else if code == 423 {
        Some(EVRInitError::VRInitError_Compositor_InvalidDeviceProvided)
    } else if code == 424 {
        Some(EVRInitError::VRInitError_Compositor_D3D11RendererInitializationFailed)
    } else if code == 425 {
        Some(EVRInitError::VRInitError_Compositor_FailedToFindDisplayMode)
    } else if code == 426 {
        Some(EVRInitError::VRInitError_Compositor_FailedToCreateSwapChain)
    } else if code == 427 {
        Some(EVRInitError::VRInitError_Compositor_FailedToGetBackBuffer)
    } else if code == 428 {
        Some(EVRInitError::VRInitError_Compositor_FailedToCreateRenderTarget)
    } else if code == 429 {
        Some(EVRInitError::VRInitError_Compositor_FailedToCreateDXGI2SwapChain)
    } else if code == 430 {
        Some(EVRInitError::VRInitError_Compositor_FailedtoGetDXGI2BackBuffer)
    } else if code == 431 {
        Some(EVRInitError::VRInitError_Compositor_FailedToCreateDXGI2RenderTarget)
    } else if code == 432 {
        Some(EVRInitError::VRInitError_Compositor_FailedToGetDXGIDeviceInterface)
    } else if code == 433 {
        Some(EVRInitError::VRInitError_Compositor_SelectDisplayMode)
    } else if code == 434 {
        Some(EVRInitError::VRInitError_Compositor_FailedToCreateNvAPIRenderTargets)
    } else if code == 435 {
        Some(EVRInitError::VRInitError_Compositor_NvAPISetDisplayMode)
    } else if code == 436 {
        Some(EVRInitError::VRInitError_Compositor_FailedToCreateDirectModeDisplay)
    } else if code == 437 {
        Some(EVRInitError::VRInitError_Compositor_InvalidHmdPropertyContainer)
    } else if code == 438 {
        Some(EVRInitError::VRInitError_Compositor_UpdateDisplayFrequency)
    } else if code == 439 {
        Some(EVRInitError::VRInitError_Compositor_CreateRasterizerState)
    } else if code == 440 {
        Some(EVRInitError::VRInitError_Compositor_CreateWireframeRasterizerState)
    } else if code == 441 {
        Some(EVRInitError::VRInitError_Compositor_CreateSamplerState)
    } else if code == 442 {
        Some(EVRInitError::VRInitError_Compositor_CreateClampToBorderSamplerState)
    } else if code == 443 {
        Some(EVRInitError::VRInitError_Compositor_CreateAnisoSamplerState)
    } else if code == 444 {
        Some(EVRInitError::VRInitError_Compositor_CreateOverlaySamplerState)
    } else if code == 445 {
        Some(EVRInitError::VRInitError_Compositor_CreatePanoramaSamplerState)
    } else if code == 446 {
        Some(EVRInitError::VRInitError_Compositor_CreateFontSamplerState)
    } else if code == 447 {
        Some(EVRInitError::VRInitError_Compositor_CreateNoBlendState)
    } else if code == 448 {
        Some(EVRInitError::VRInitError_Compositor_CreateBlendState)
    } else if code == 449 {
        Some(EVRInitError::VRInitError_Compositor_CreateAlphaBlendState)
    } else if code == 450 {
        Some(EVRInitError::VRInitError_Compositor_CreateBlendStateMaskR)
    } else if code == 451 {
        Some(EVRInitError::VRInitError_Compositor_CreateBlendStateMaskG)
    } else if code == 452 {
        Some(EVRInitError::VRInitError_Compositor_CreateBlendStateMaskB)
    } else if code == 453 {
        Some(EVRInitError::VRInitError_Compositor_CreateDepthStencilState)
    } else if code == 454 {
        Some(EVRInitError::VRInitError_Compositor_CreateDepthStencilStateNoWrite)
    } else if code == 455 {
        Some(EVRInitError::VRInitError_Compositor_CreateDepthStencilStateNoDepth)
    } else if code == 456 {
        Some(EVRInitError::VRInitError_Compositor_CreateFlushTexture)
    } else if code == 457 {
        Some(EVRInitError::VRInitError_Compositor_CreateDistortionSurfaces)
    } else if code == 458 {
        Some(EVRInitError::VRInitError_Compositor_CreateConstantBuffer)
    } else if code == 459 {
        Some(EVRInitError::VRInitError_Compositor_CreateHmdPoseConstantBuffer)
    } else if code == 460 {
        Some(EVRInitError::VRInitError_Compositor_CreateHmdPoseStagingConstantBuffer)
    } else if code == 461 {
        Some(EVRInitError::VRInitError_Compositor_CreateSharedFrameInfoConstantBuffer)
    } else if code == 462 {
        Some(EVRInitError::VRInitError_Compositor_CreateOverlayConstantBuffer)
    } else if code == 463 {
        Some(EVRInitError::VRInitError_Compositor_CreateSceneTextureIndexConstantBuffer)
    } else if code == 464 {
        Some(EVRInitError::VRInitError_Compositor_CreateReadableSceneTextureIndexConstantBuffer)
    } else if code == 465 {
        Some(EVRInitError::VRInitError_Compositor_CreateLayerGraphicsTextureIndexConstantBuffer)
    } else if code == 466 {
        Some(EVRInitError::VRInitError_Compositor_CreateLayerComputeTextureIndexConstantBuffer)
    } else if code == 467 {
        Some(EVRInitError::VRInitError_Compositor_CreateLayerComputeSceneTextureIndexConstantBuffer)
    } else if code == 468 {
        Some(EVRInitError::VRInitError_Compositor_CreateComputeHmdPoseConstantBuffer)
    } else if code == 469 {
        Some(EVRInitError::VRInitError_Compositor_CreateGeomConstantBuffer)
    } else if code == 470 {
        Some(EVRInitError::VRInitError_Compositor_CreatePanelMaskConstantBuffer)
    } else if code == 471 {
        Some(EVRInitError::VRInitError_Compositor_CreatePixelSimUBO)
    } else if code == 472 {
        Some(EVRInitError::VRInitError_Compositor_CreateMSAARenderTextures)
    } else if code == 473 {
        Some(EVRInitError::VRInitError_Compositor_CreateResolveRenderTextures)
    } else if code == 474 {
        Some(EVRInitError::VRInitError_Compositor_CreateComputeResolveRenderTextures)
    } else if code == 475 {
        Some(EVRInitError::VRInitError_Compositor_CreateDriverDirectModeResolveTextures)
    } else if code == 476 {
        Some(EVRInitError::VRInitError_Compositor_OpenDriverDirectModeResolveTextures)
    } else if code == 477 {
        Some(EVRInitError::VRInitError_Compositor_CreateFallbackSyncTexture)
    } else if code == 478 {
        Some(EVRInitError::VRInitError_Compositor_ShareFallbackSyncTexture)
    } else if code == 479 {
        Some(EVRInitError::VRInitError_Compositor_CreateOverlayIndexBuffer)
    } else if code == 480 {
        Some(EVRInitError::VRInitError_Compositor_CreateOverlayVertexBuffer)
    } else if code == 481 {
        Some(EVRInitError::VRInitError_Compositor_CreateTextVertexBuffer)
    } else if code == 482 {
        Some(EVRInitError::VRInitError_Compositor_CreateTextIndexBuffer)
    } else if code == 483 {
        Some(EVRInitError::VRInitError_Compositor_CreateMirrorTextures)
    } else if code == 484 {
        Some(EVRInitError::VRInitError_Compositor_CreateLastFrameRenderTexture)
    } else if code == 485 {
        Some(EVRInitError::VRInitError_Compositor_CreateMirrorOverlay)
    } else if code == 486 {
        Some(EVRInitError::VRInitError_Compositor_FailedToCreateVirtualDisplayBackbuffer)
    } else if code == 487 {
        Some(EVRInitError::VRInitError_Compositor_DisplayModeNotSupported)
    } else if code == 488 {
        Some(EVRInitError::VRInitError_Compositor_CreateOverlayInvalidCall)
    } else if code == 489 {
        Some(EVRInitError::VRInitError_Compositor_CreateOverlayAlreadyInitialized)
    } else if code == 490 {
        Some(EVRInitError::VRInitError_Compositor_FailedToCreateMailbox)
    } else if code == 491 {
        Some(EVRInitError::VRInitError_Compositor_WindowInterfaceIsNull)
    } else if code == 492 {
        Some(EVRInitError::VRInitError_Compositor_SystemLayerCreateInstance)
    } else if code == 493 {
        Some(EVRInitError::VRInitError_Compositor_SystemLayerCreateSession)
    } else if code == 1000 {
        Some(EVRInitError::VRInitError_VendorSpecific_UnableToConnectToOculusRuntime)
    } else if code == 1001 {
        Some(EVRInitError::VRInitError_VendorSpecific_WindowsNotInDevMode)
    } else if code == 1101 {
        Some(EVRInitError::VRInitError_VendorSpecific_HmdFound_CantOpenDevice)
    } else if code == 1102 {
        Some(EVRInitError::VRInitError_VendorSpecific_HmdFound_UnableToRequestConfigStart)
    } else if code == 1103 {
        Some(EVRInitError::VRInitError_VendorSpecific_HmdFound_NoStoredConfig)
    } else if code == 1104 {
        Some(EVRInitError::VRInitError_VendorSpecific_HmdFound_ConfigTooBig)
    } else if code == 1105 {
        Some(EVRInitError::VRInitError_VendorSpecific_HmdFound_ConfigTooSmall)
    } else if code == 1106 {
        Some(EVRInitError::VRInitError_VendorSpecific_HmdFound_UnableToInitZLib)
    } else if code == 1107 {
        Some(EVRInitError::VRInitError_VendorSpecific_HmdFound_CantReadFirmwareVersion)
    } else if code == 1108 {
        Some(EVRInitError::VRInitError_VendorSpecific_HmdFound_UnableToSendUserDataStart)
    } else if code == 1109 {
        Some(EVRInitError::VRInitError_VendorSpecific_HmdFound_UnableToGetUserDataStart)
    } else if code == 1110 {
        Some(EVRInitError::VRInitError_VendorSpecific_HmdFound_UnableToGetUserDataNext)
    } else if code == 1111 {
        Some(EVRInitError::VRInitError_VendorSpecific_HmdFound_UserDataAddressRange)
    } else if code == 1112 {
        Some(EVRInitError::VRInitError_VendorSpecific_HmdFound_UserDataError)
    } else if code == 1113 {
        Some(EVRInitError::VRInitError_VendorSpecific_HmdFound_ConfigFailedSanityCheck)
    } else if code == 1114 {
        Some(EVRInitError::VRInitError_VendorSpecific_OculusRuntimeBadInstall)
    } else if code == 2000 {
        Some(EVRInitError::VRInitError_Steam_SteamInstallationNotFound)
    } else if code == 2001 {
        Some(EVRInitError::VRInitError_LastError)
    } else {
        None
    }
}

/// Decodes a numeric initialization error code.
pub fn init_error_from_code(code: u32) -> (e: Option<EVRInitError>)
    ensures
        e == spec_init_error_from_code(code),
{
    match code {
        0u32 => Some(EVRInitError::VRInitError_None),
        1u32 => Some(EVRInitError::VRInitError_Unknown),
        100u32 => Some(EVRInitError::VRInitError_Init_InstallationNotFound),
        101u32 => Some(EVRInitError::VRInitError_Init_InstallationCorrupt),
        102u32 => Some(EVRInitError::VRInitError_Init_VRClientDLLNotFound),
        103u32 => Some(EVRInitError::VRInitError_Init_FileNotFound),
        104u32 => Some(EVRInitError::VRInitError_Init_FactoryNotFound),
        105u32 => Some(EVRInitError::VRInitError_Init_InterfaceNotFound),
        106u32 => Some(EVRInitError::VRInitError_Init_InvalidInterface),
        107u32 => Some(EVRInitError::VRInitError_Init_UserConfigDirectoryInvalid),
        108u32 => Some(EVRInitError::VRInitError_Init_HmdNotFound),
        109u32 => Some(EVRInitError::VRInitError_Init_NotInitialized),
        110u32 => Some(EVRInitError::VRInitError_Init_PathRegistryNotFound),
        111u32 => Some(EVRInitError::VRInitError_Init_NoConfigPath),
        112u32 => Some(EVRInitError::VRInitError_Init_NoLogPath),
        113u32 => Some(EVRInitError::VRInitError_Init_PathRegistryNotWritable),
        114u32 => Some(EVRInitError::VRInitError_Init_AppInfoInitFailed),
        115u32 => Some(EVRInitError::VRInitError_Init_Retry),
        116u32 => Some(EVRInitError::VRInitError_Init_InitCanceledByUser),
        117u32 => Some(EVRInitError::VRInitError_Init_AnotherAppLaunching),
        118u32 => Some(EVRInitError::VRInitError_Init_SettingsInitFailed),
        119u32 => Some(EVRInitError::VRInitError_Init_ShuttingDown),
        120u32 => Some(EVRInitError::VRInitError_Init_TooManyObjects),
        121u32 => Some(EVRInitError::VRInitError_Init_NoServerForBackgroundApp),
        122u32 => Some(EVRInitError::VRInitError_Init_NotSupportedWithCompositor),
        123u32 => Some(EVRInitError::VRInitError_Init_NotAvailableToUtilityApps),
        124u32 => Some(EVRInitError::VRInitError_Init_Internal),
        125u32 => Some(EVRInitError::VRInitError_Init_HmdDriverIdIsNone),
        126u32 => Some(EVRInitError::VRInitError_Init_HmdNotFoundPresenceFailed),
        127u32 => Some(EVRInitError::VRInitError_Init_VRMonitorNotFound),
        128u32 => Some(EVRInitError::VRInitError_Init_VRMonitorStartupFailed),
        129u32 => Some(EVRInitError::VRInitError_Init_LowPowerWatchdogNotSupported),
        130u32 => Some(EVRInitError::VRInitError_Init_InvalidApplicationType),
        131u32 => Some(EVRInitError::VRInitError_Init_NotAvailableToWatchdogApps),
        132u32 => Some(EVRInitError::VRInitError_Init_WatchdogDisabledInSettings),
        133u32 => Some(EVRInitError::VRInitError_Init_VRDashboardNotFound),
        134u32 => Some(EVRInitError::VRInitError_Init_VRDashboardStartupFailed),
        135u32 => Some(EVRInitError::VRInitError_Init_VRHomeNotFound),
        136u32 => Some(EVRInitError::VRInitError_Init_VRHomeStartupFailed),
        137u32 => Some(EVRInitError::VRInitError_Init_RebootingBusy),
        138u32 => Some(EVRInitError::VRInitError_Init_FirmwareUpdateBusy),
        139u32 => Some(EVRInitError::VRInitError_Init_FirmwareRecoveryBusy),
        140u32 => Some(EVRInitError::VRInitError_Init_USBServiceBusy),
        141u32 => Some(EVRInitError::VRInitError_Init_VRWebHelperStartupFailed),
        142u32 => Some(EVRInitError::VRInitError_Init_TrackerManagerInitFailed),
        143u32 => Some(EVRInitError::VRInitError_Init_AlreadyRunning),
        144u32 => Some(EVRInitError::VRInitError_Init_FailedForVrMonitor),
        145u32 => Some(EVRInitError::VRInitError_Init_PropertyManagerInitFailed),
        146u32 => Some(EVRInitError::VRInitError_Init_WebServerFailed),
        147u32 => Some(EVRInitError::VRInitError_Init_IllegalTypeTransition),
        148u32 => Some(EVRInitError::VRInitError_Init_MismatchedRuntimes),
        149u32 => Some(EVRInitError::VRInitError_Init_InvalidProcessId),
        150u32 => Some(EVRInitError::VRInitError_Init_VRServiceStartupFailed),
        151u32 => Some(EVRInitError::VRInitError_Init_PrismNeedsNewDrivers),
        152u32 => Some(EVRInitError::VRInitError_Init_PrismStartupTimedOut),
        153u32 => Some(EVRInitError::VRInitError_Init_CouldNotStartPrism),
        154u32 => Some(EVRInitError::VRInitError_Init_CreateDriverDirectDeviceFailed),
        155u32 => Some(EVRInitError::VRInitError_Init_PrismExitedUnexpectedly),
        200u32 => Some(EVRInitError::VRInitError_Driver_Failed),
        201u32 => Some(EVRInitError::VRInitError_Driver_Unknown),
        202u32 => Some(EVRInitError::VRInitError_Driver_HmdUnknown),
        203u32 => Some(EVRInitError::VRInitError_Driver_NotLoaded),
        204u32 => Some(EVRInitError::VRInitError_Driver_RuntimeOutOfDate),
        205u32 => Some(EVRInitError::VRInitError_Driver_HmdInUse),
        206u32 => Some(EVRInitError::VRInitError_Driver_NotCalibrated),
        207u32 => Some(EVRInitError::VRInitError_Driver_CalibrationInvalid),
        208u32 => Some(EVRInitError::VRInitError_Driver_HmdDisplayNotFound),
        209u32 => Some(EVRInitError::VRInitError_Driver_TrackedDeviceInterfaceUnknown),
        211u32 => Some(EVRInitError::VRInitError_Driver_HmdDriverIdOutOfBounds),
        212u32 => Some(EVRInitError::VRInitError_Driver_HmdDisplayMirrored),
        213u32 => Some(EVRInitError::VRInitError_Driver_HmdDisplayNotFoundLaptop),
        300u32 => Some(EVRInitError::VRInitError_IPC_ServerInitFailed),
        301u32 => Some(EVRInitError::VRInitError_IPC_ConnectFailed),
        302u32 => Some(EVRInitError::VRInitError_IPC_SharedStateInitFailed),
        303u32 => Some(EVRInitError::VRInitError_IPC_CompositorInitFailed),
        304u32 => Some(EVRInitError::VRInitError_IPC_MutexInitFailed),
        305u32 => Some(EVRInitError::VRInitError_IPC_Failed),
        306u32 => Some(EVRInitError::VRInitError_IPC_CompositorConnectFailed),
        307u32 => Some(EVRInitError::VRInitError_IPC_CompositorInvalidConnectResponse),
        308u32 => Some(EVRInitError::VRInitError_IPC_ConnectFailedAfterMultipleAttempts),
        309u32 => Some(EVRInitError::VRInitError_IPC_ConnectFailedAfterTargetExited),
        310u32 => Some(EVRInitError::VRInitError_IPC_NamespaceUnavailable),
        400u32 => Some(EVRInitError::VRInitError_Compositor_Failed),
        401u32 => Some(EVRInitError::VRInitError_Compositor_D3D11HardwareRequired),
        402u32 => Some(EVRInitError::VRInitError_Compositor_FirmwareRequiresUpdate),
        403u32 => Some(EVRInitError::VRInitError_Compositor_OverlayInitFailed),
        404u32 => Some(EVRInitError::VRInitError_Compositor_ScreenshotsInitFailed),
        405u32 => Some(EVRInitError::VRInitError_Compositor_UnableToCreateDevice),
        406u32 => Some(EVRInitError::VRInitError_Compositor_SharedStateIsNull),
        407u32 => Some(EVRInitError::VRInitError_Compositor_NotificationManagerIsNull),
        408u32 => Some(EVRInitError::VRInitError_Compositor_ResourceManagerClientIsNull),
        409u32 => Some(EVRInitError::VRInitError_Compositor_MessageOverlaySharedStateInitFailure),
        410u32 => Some(EVRInitError::VRInitError_Compositor_PropertiesInterfaceIsNull),
        411u32 => Some(EVRInitError::VRInitError_Compositor_CreateFullscreenWindowFailed),
        412u32 => Some(EVRInitError::VRInitError_Compositor_SettingsInterfaceIsNull),
        413u32 => Some(EVRInitError::VRInitError_Compositor_FailedToShowWindow),
        414u32 => Some(EVRInitError::VRInitError_Compositor_DistortInterfaceIsNull),
        415u32 => Some(EVRInitError::VRInitError_Compositor_DisplayFrequencyFailure),
        416u32 => Some(EVRInitError::VRInitError_Compositor_RendererInitializationFailed),
        417u32 => Some(EVRInitError::VRInitError_Compositor_DXGIFactoryInterfaceIsNull),
        418u32 => Some(EVRInitError::VRInitError_Compositor_DXGIFactoryCreateFailed),
        419u32 => Some(EVRInitError::VRInitError_Compositor_DXGIFactoryQueryFailed),
        420u32 => Some(EVRInitError::VRInitError_Compositor_InvalidAdapterDesktop),
        421u32 => Some(EVRInitError::VRInitError_Compositor_InvalidHmdAttachment),
        422u32 => Some(EVRInitError::VRInitError_Compositor_InvalidOutputDesktop),
        423u32 => Some(EVRInitError::VRInitError_Compositor_InvalidDeviceProvided),
        424u32 => Some(EVRInitError::VRInitError_Compositor_D3D11RendererInitializationFailed),
        425u32 => Some(EVRInitError::VRInitError_Compositor_FailedToFindDisplayMode),
        426u32 => Some(EVRInitError::VRInitError_Compositor_FailedToCreateSwapChain),
        427u32 => Some(EVRInitError::VRInitError_Compositor_FailedToGetBackBuffer),
        428u32 => Some(EVRInitError::VRInitError_Compositor_FailedToCreateRenderTarget),
        429u32 => Some(EVRInitError::VRInitError_Compositor_FailedToCreateDXGI2SwapChain),
        430u32 => Some(EVRInitError::VRInitError_Compositor_FailedtoGetDXGI2BackBuffer),
        431u32 => Some(EVRInitError::VRInitError_Compositor_FailedToCreateDXGI2RenderTarget),
        432u32 => Some(EVRInitError::VRInitError_Compositor_FailedToGetDXGIDeviceInterface),
        433u32 => Some(EVRInitError::VRInitError_Compositor_SelectDisplayMode),
        434u32 => Some(EVRInitError::VRInitError_Compositor_FailedToCreateNvAPIRenderTargets),
        435u32 => Some(EVRInitError::VRInitError_Compositor_NvAPISetDisplayMode),
        436u32 => Some(EVRInitError::VRInitError_Compositor_FailedToCreateDirectModeDisplay),
        437u32 => Some(EVRInitError::VRInitError_Compositor_InvalidHmdPropertyContainer),
        438u32 => Some(EVRInitError::VRInitError_Compositor_UpdateDisplayFrequency),
        439u32 => Some(EVRInitError::VRInitError_Compositor_CreateRasterizerState),
        440u32 => Some(EVRInitError::VRInitError_Compositor_CreateWireframeRasterizerState),
        441u32 => Some(EVRInitError::VRInitError_Compositor_CreateSamplerState),
        442u32 => Some(EVRInitError::VRInitError_Compositor_CreateClampToBorderSamplerState),
        443u32 => Some(EVRInitError::VRInitError_Compositor_CreateAnisoSamplerState),
        444u32 => Some(EVRInitError::VRInitError_Compositor_CreateOverlaySamplerState),
        445u32 => Some(EVRInitError::VRInitError_Compositor_CreatePanoramaSamplerState),
        446u32 => Some(EVRInitError::VRInitError_Compositor_CreateFontSamplerState),
        447u32 => Some(EVRInitError::VRInitError_Compositor_CreateNoBlendState),
        448u32 => Some(EVRInitError::VRInitError_Compositor_CreateBlendState),
        449u32 => Some(EVRInitError::VRInitError_Compositor_CreateAlphaBlendState),
        450u32 => Some(EVRInitError::VRInitError_Compositor_CreateBlendStateMaskR),
        451u32 => Some(EVRInitError::VRInitError_Compositor_CreateBlendStateMaskG),
        452u32 => Some(EVRInitError::VRInitError_Compositor_CreateBlendStateMaskB),
        453u32 => Some(EVRInitError::VRInitError_Compositor_CreateDepthStencilState),
        454u32 => Some(EVRInitError::VRInitError_Compositor_CreateDepthStencilStateNoWrite),
        455u32 => Some(EVRInitError::VRInitError_Compositor_CreateDepthStencilStateNoDepth),
        456u32 => Some(EVRInitError::VRInitError_Compositor_CreateFlushTexture),
        457u32 => Some(EVRInitError::VRInitError_Compositor_CreateDistortionSurfaces),
        458u32 => Some(EVRInitError::VRInitError_Compositor_CreateConstantBuffer),
        459u32 => Some(EVRInitError::VRInitError_Compositor_CreateHmdPoseConstantBuffer),
        460u32 => Some(EVRInitError::VRInitError_Compositor_CreateHmdPoseStagingConstantBuffer),
        461u32 => Some(EVRInitError::VRInitError_Compositor_CreateSharedFrameInfoConstantBuffer),
        462u32 => Some(EVRInitError::VRInitError_Compositor_CreateOverlayConstantBuffer),
        463u32 => Some(EVRInitError::VRInitError_Compositor_CreateSceneTextureIndexConstantBuffer),
        464u32 => Some(EVRInitError::VRInitError_Compositor_CreateReadableSceneTextureIndexConstantBuffer),
        465u32 => Some(EVRInitError::VRInitError_Compositor_CreateLayerGraphicsTextureIndexConstantBuffer),
        466u32 => Some(EVRInitError::VRInitError_Compositor_CreateLayerComputeTextureIndexConstantBuffer),
        467u32 => Some(EVRInitError::VRInitError_Compositor_CreateLayerComputeSceneTextureIndexConstantBuffer),
        468u32 => Some(EVRInitError::VRInitError_Compositor_CreateComputeHmdPoseConstantBuffer),
        469u32 => Some(EVRInitError::VRInitError_Compositor_CreateGeomConstantBuffer),
        470u32 => Some(EVRInitError::VRInitError_Compositor_CreatePanelMaskConstantBuffer),
        471u32 => Some(EVRInitError::VRInitError_Compositor_CreatePixelSimUBO),
        472u32 => Some(EVRInitError::VRInitError_Compositor_CreateMSAARenderTextures),
        473u32 => Some(EVRInitError::VRInitError_Compositor_CreateResolveRenderTextures),
        474u32 => Some(EVRInitError::VRInitError_Compositor_CreateComputeResolveRenderTextures),
        475u32 => Some(EVRInitError::VRInitError_Compositor_CreateDriverDirectModeResolveTextures),
        476u32 => Some(EVRInitError::VRInitError_Compositor_OpenDriverDirectModeResolveTextures),
        477u32 => Some(EVRInitError::VRInitError_Compositor_CreateFallbackSyncTexture),
        478u32 => Some(EVRInitError::VRInitError_Compositor_ShareFallbackSyncTexture),
        479u32 => Some(EVRInitError::VRInitError_Compositor_CreateOverlayIndexBuffer),
        480u32 => Some(EVRInitError::VRInitError_Compositor_CreateOverlayVertexBuffer),
        481u32 => Some(EVRInitError::VRInitError_Compositor_CreateTextVertexBuffer),
        482u32 => Some(EVRInitError::VRInitError_Compositor_CreateTextIndexBuffer),
        483u32 => Some(EVRInitError::VRInitError_Compositor_CreateMirrorTextures),
        484u32 => Some(EVRInitError::VRInitError_Compositor_CreateLastFrameRenderTexture),
        485u32 => Some(EVRInitError::VRInitError_Compositor_CreateMirrorOverlay),
        486u32 => Some(EVRInitError::VRInitError_Compositor_FailedToCreateVirtualDisplayBackbuffer),
        487u32 => Some(EVRInitError::VRInitError_Compositor_DisplayModeNotSupported),
        488u32 => Some(EVRInitError::VRInitError_Compositor_CreateOverlayInvalidCall),
        489u32 => Some(EVRInitError::VRInitError_Compositor_CreateOverlayAlreadyInitialized),
        490u32 => Some(EVRInitError::VRInitError_Compositor_FailedToCreateMailbox),
        491u32 => Some(EVRInitError::VRInitError_Compositor_WindowInterfaceIsNull),
        492u32 => Some(EVRInitError::VRInitError_Compositor_SystemLayerCreateInstance),
        493u32 => Some(EVRInitError::VRInitError_Compositor_SystemLayerCreateSession),
        1000u32 => Some(EVRInitError::VRInitError_VendorSpecific_UnableToConnectToOculusRuntime),
        1001u32 => Some(EVRInitError::VRInitError_VendorSpecific_WindowsNotInDevMode),
        1101u32 => Some(EVRInitError::VRInitError_VendorSpecific_HmdFound_CantOpenDevice),
        1102u32 => Some(EVRInitError::VRInitError_VendorSpecific_HmdFound_UnableToRequestConfigStart),
        1103u32 => Some(EVRInitError::VRInitError_VendorSpecific_HmdFound_NoStoredConfig),
        1104u32 => Some(EVRInitError::VRInitError_VendorSpecific_HmdFound_ConfigTooBig),
        1105u32 => Some(EVRInitError::VRInitError_VendorSpecific_HmdFound_ConfigTooSmall),
        1106u32 => Some(EVRInitError::VRInitError_VendorSpecific_HmdFound_UnableToInitZLib),
        1107u32 => Some(EVRInitError::VRInitError_VendorSpecific_HmdFound_CantReadFirmwareVersion),
        1108u32 => Some(EVRInitError::VRInitError_VendorSpecific_HmdFound_UnableToSendUserDataStart),
        1109u32 => Some(EVRInitError::VRInitError_VendorSpecific_HmdFound_UnableToGetUserDataStart),
        1110u32 => Some(EVRInitError::VRInitError_VendorSpecific_HmdFound_UnableToGetUserDataNext),
        1111u32 => Some(EVRInitError::VRInitError_VendorSpecific_HmdFound_UserDataAddressRange),
        1112u32 => Some(EVRInitError::VRInitError_VendorSpecific_HmdFound_UserDataError),
        1113u32 => Some(EVRInitError::VRInitError_VendorSpecific_HmdFound_ConfigFailedSanityCheck),
        1114u32 => Some(EVRInitError::VRInitError_VendorSpecific_OculusRuntimeBadInstall),
        2000u32 => Some(EVRInitError::VRInitError_Steam_SteamInstallationNotFound),
        2001u32 => Some(EVRInitError::VRInitError_LastError),
        _ => None,
    }
}

/// Encoding an initialization error and decoding the code gives the error
/// back: the numeric codes are a faithful wire form of the enumeration.
pub proof fn lemma_init_error_code_round_trip(e: EVRInitError)
    ensures
        spec_init_error_from_code(spec_init_error_code(e)) == Some(e),
{
}

/// No two initialization errors share a numeric code.
pub proof fn lemma_init_error_code_injective(a: EVRInitError, b: EVRInitError)
    requires
        spec_init_error_code(a) == spec_init_error_code(b),
    ensures
        a == b,
{
    lemma_init_error_code_round_trip(a);
    lemma_init_error_code_round_trip(b);
}

/// Failure categories of initialization errors; the runtime assigns each
/// category its own range of numeric codes.
#[allow(non_camel_case_types)]
#[derive(Clone, Copy, Debug, PartialEq, Eq, Structural)]
pub enum EVRInitErrorCategory {
    Category_Success,
    Category_Unknown,
    Category_Init,
    Category_Driver,
    Category_Ipc,
    Category_Compositor,
    Category_VendorSpecific,
    Category_Steam,
}

/// The failure category an initialization error belongs to, by the code
/// range the runtime reserves for it.
pub open spec fn spec_init_error_category(e: EVRInitError) -> EVRInitErrorCategory {
    let code = spec_init_error_code(e);
    if code == 0 {
        EVRInitErrorCategory::Category_Success
    } else if code < 100 {
        EVRInitErrorCategory::Category_Unknown
    } else if code < 200 {
        EVRInitErrorCategory::Category_Init
    } else if code < 300 {
        EVRInitErrorCategory::Category_Driver
    } else if code < 400 {
        EVRInitErrorCategory::Category_Ipc
    } else if code < 1000 {
        EVRInitErrorCategory::Category_Compositor
    } else if code < 2000 {
        EVRInitErrorCategory::Category_VendorSpecific
    } else {
        EVRInitErrorCategory::Category_Steam
    }
}

/// The failure category an initialization error belongs to.
pub fn init_error_category(e: EVRInitError) -> (category: EVRInitErrorCategory)
    ensures
        category == spec_init_error_category(e),
{
    let code = init_error_code(e);
    if code == 0 {
        EVRInitErrorCategory::Category_Success
    } else if code < 100 {
        EVRInitErrorCategory::Category_Unknown
    } else if code < 200 {
        EVRInitErrorCategory::Category_Init
    } else if code < 300 {
        EVRInitErrorCategory::Category_Driver
    } else if code < 400 {
        EVRInitErrorCategory::Category_Ipc
    } else if code < 1000 {
        EVRInitErrorCategory::Category_Compositor
    } else if code < 2000 {
        EVRInitErrorCategory::Category_VendorSpecific
    } else {
        EVRInitErrorCategory::Category_Steam
    }
}

/// Symbol of an initialization error, as the runtime's own error-to-string
/// translation reports it.
pub open spec fn spec_init_error_symbol(e: EVRInitError) -> Seq<char> {
    match e {
        EVRInitError::VRInitError_None => "VRInitError_None"@,
        EVRInitError::VRInitError_Unknown => "VRInitError_Unknown"@,
        EVRInitError::VRInitError_Init_InstallationNotFound => "VRInitError_Init_InstallationNotFound"@,
        EVRInitError::VRInitError_Init_InstallationCorrupt => "VRInitError_Init_InstallationCorrupt"@,
        EVRInitError::VRInitError_Init_VRClientDLLNotFound => "VRInitError_Init_VRClientDLLNotFound"@,
        EVRInitError::VRInitError_Init_FileNotFound => "VRInitError_Init_FileNotFound"@,
        EVRInitError::VRInitError_Init_FactoryNotFound => "VRInitError_Init_FactoryNotFound"@,
        EVRInitError::VRInitError_Init_InterfaceNotFound => "VRInitError_Init_InterfaceNotFound"@,
        EVRInitError::VRInitError_Init_InvalidInterface => "VRInitError_Init_InvalidInterface"@,
        EVRInitError::VRInitError_Init_UserConfigDirectoryInvalid => "VRInitError_Init_UserConfigDirectoryInvalid"@,
        EVRInitError::VRInitError_Init_HmdNotFound => "VRInitError_Init_HmdNotFound"@,
        EVRInitError::VRInitError_Init_NotInitialized => "VRInitError_Init_NotInitialized"@,
        EVRInitError::VRInitError_Init_PathRegistryNotFound => "VRInitError_Init_PathRegistryNotFound"@,
        EVRInitError::VRInitError_Init_NoConfigPath => "VRInitError_Init_NoConfigPath"@,
        EVRInitError::VRInitError_Init_NoLogPath => "VRInitError_Init_NoLogPath"@,
        EVRInitError::VRInitError_Init_PathRegistryNotWritable => "VRInitError_Init_PathRegistryNotWritable"@,
        EVRInitError::VRInitError_Init_AppInfoInitFailed => "VRInitError_Init_AppInfoInitFailed"@,
        EVRInitError::VRInitError_Init_Retry => "VRInitError_Init_Retry"@,
        EVRInitError::VRInitError_Init_InitCanceledByUser => "VRInitError_Init_InitCanceledByUser"@,
        EVRInitError::VRInitError_Init_AnotherAppLaunching => "VRInitError_Init_AnotherAppLaunching"@,
        EVRInitError::VRInitError_Init_SettingsInitFailed => "VRInitError_Init_SettingsInitFailed"@,
        EVRInitError::VRInitError_Init_ShuttingDown => "VRInitError_Init_ShuttingDown"@,
        EVRInitError::VRInitError_Init_TooManyObjects => "VRInitError_Init_TooManyObjects"@,
        EVRInitError::VRInitError_Init_NoServerForBackgroundApp => "VRInitError_Init_NoServerForBackgroundApp"@,
        EVRInitError::VRInitError_Init_NotSupportedWithCompositor => "VRInitError_Init_NotSupportedWithCompositor"@,
        EVRInitError::VRInitError_Init_NotAvailableToUtilityApps => "VRInitError_Init_NotAvailableToUtilityApps"@,
        EVRInitError::VRInitError_Init_Internal => "VRInitError_Init_Internal"@,
        EVRInitError::VRInitError_Init_HmdDriverIdIsNone => "VRInitError_Init_HmdDriverIdIsNone"@,
        EVRInitError::VRInitError_Init_HmdNotFoundPresenceFailed => "VRInitError_Init_HmdNotFoundPresenceFailed"@,
        EVRInitError::VRInitError_Init_VRMonitorNotFound => "VRInitError_Init_VRMonitorNotFound"@,
        EVRInitError::VRInitError_Init_VRMonitorStartupFailed => "VRInitError_Init_VRMonitorStartupFailed"@,
        EVRInitError::VRInitError_Init_LowPowerWatchdogNotSupported => "VRInitError_Init_LowPowerWatchdogNotSupported"@,
        EVRInitError::VRInitError_Init_InvalidApplicationType => "VRInitError_Init_InvalidApplicationType"@,
        EVRInitError::VRInitError_Init_NotAvailableToWatchdogApps => "VRInitError_Init_NotAvailableToWatchdogApps"@,
        EVRInitError::VRInitError_Init_WatchdogDisabledInSettings => "VRInitError_Init_WatchdogDisabledInSettings"@,
        EVRInitError::VRInitError_Init_VRDashboardNotFound => "VRInitError_Init_VRDashboardNotFound"@,
        EVRInitError::VRInitError_Init_VRDashboardStartupFailed => "VRInitError_Init_VRDashboardStartupFailed"@,
        EVRInitError::VRInitError_Init_VRHomeNotFound => "VRInitError_Init_VRHomeNotFound"@,
        EVRInitError::VRInitError_Init_VRHomeStartupFailed => "VRInitError_Init_VRHomeStartupFailed"@,
        EVRInitError::VRInitError_Init_RebootingBusy => "VRInitError_Init_RebootingBusy"@,
        EVRInitError::VRInitError_Init_FirmwareUpdateBusy => "VRInitError_Init_FirmwareUpdateBusy"@,
        EVRInitError::VRInitError_Init_FirmwareRecoveryBusy => "VRInitError_Init_FirmwareRecoveryBusy"@,
        EVRInitError::VRInitError_Init_USBServiceBusy => "VRInitError_Init_USBServiceBusy"@,
        EVRInitError::VRInitError_Init_VRWebHelperStartupFailed => "VRInitError_Init_VRWebHelperStartupFailed"@,
        EVRInitError::VRInitError_Init_TrackerManagerInitFailed => "VRInitError_Init_TrackerManagerInitFailed"@,
        EVRInitError::VRInitError_Init_AlreadyRunning => "VRInitError_Init_AlreadyRunning"@,
        EVRInitError::VRInitError_Init_FailedForVrMonitor => "VRInitError_Init_FailedForVrMonitor"@,
        EVRInitError::VRInitError_Init_PropertyManagerInitFailed => "VRInitError_Init_PropertyManagerInitFailed"@,
        EVRInitError::VRInitError_Init_WebServerFailed => "VRInitError_Init_WebServerFailed"@,
        EVRInitError::VRInitError_Init_IllegalTypeTransition => "VRInitError_Init_IllegalTypeTransition"@,
        EVRInitError::VRInitError_Init_MismatchedRuntimes => "VRInitError_Init_MismatchedRuntimes"@,
        EVRInitError::VRInitError_Init_InvalidProcessId => "VRInitError_Init_InvalidProcessId"@,
        EVRInitError::VRInitError_Init_VRServiceStartupFailed => "VRInitError_Init_VRServiceStartupFailed"@,
        EVRInitError::VRInitError_Init_PrismNeedsNewDrivers => "VRInitError_Init_PrismNeedsNewDrivers"@,
        EVRInitError::VRInitError_Init_PrismStartupTimedOut => "VRInitError_Init_PrismStartupTimedOut"@,
        EVRInitError::VRInitError_Init_CouldNotStartPrism => "VRInitError_Init_CouldNotStartPrism"@,
        EVRInitError::VRInitError_Init_CreateDriverDirectDeviceFailed => "VRInitError_Init_CreateDriverDirectDeviceFailed"@,
        EVRInitError::VRInitError_Init_PrismExitedUnexpectedly => "VRInitError_Init_PrismExitedUnexpectedly"@,
        EVRInitError::VRInitError_Driver_Failed => "VRInitError_Driver_Failed"@,
        EVRInitError::VRInitError_Driver_Unknown => "VRInitError_Driver_Unknown"@,
        EVRInitError::VRInitError_Driver_HmdUnknown => "VRInitError_Driver_HmdUnknown"@,
        EVRInitError::VRInitError_Driver_NotLoaded => "VRInitError_Driver_NotLoaded"@,
        EVRInitError::VRInitError_Driver_RuntimeOutOfDate => "VRInitError_Driver_RuntimeOutOfDate"@,
        EVRInitError::VRInitError_Driver_HmdInUse => "VRInitError_Driver_HmdInUse"@,
        EVRInitError::VRInitError_Driver_NotCalibrated => "VRInitError_Driver_NotCalibrated"@,
        EVRInitError::VRInitError_Driver_CalibrationInvalid => "VRInitError_Driver_CalibrationInvalid"@,
        EVRInitError::VRInitError_Driver_HmdDisplayNotFound => "VRInitError_Driver_HmdDisplayNotFound"@,
        EVRInitError::VRInitError_Driver_TrackedDeviceInterfaceUnknown => "VRInitError_Driver_TrackedDeviceInterfaceUnknown"@,
        EVRInitError::VRInitError_Driver_HmdDriverIdOutOfBounds => "VRInitError_Driver_HmdDriverIdOutOfBounds"@,
        EVRInitError::VRInitError_Driver_HmdDisplayMirrored => "VRInitError_Driver_HmdDisplayMirrored"@,
        EVRInitError::VRInitError_Driver_HmdDisplayNotFoundLaptop => "VRInitError_Driver_HmdDisplayNotFoundLaptop"@,
        EVRInitError::VRInitError_IPC_ServerInitFailed => "VRInitError_IPC_ServerInitFailed"@,
        EVRInitError::VRInitError_IPC_ConnectFailed => "VRInitError_IPC_ConnectFailed"@,
        EVRInitError::VRInitError_IPC_SharedStateInitFailed => "VRInitError_IPC_SharedStateInitFailed"@,
        EVRInitError::VRInitError_IPC_CompositorInitFailed => "VRInitError_IPC_CompositorInitFailed"@,
        EVRInitError::VRInitError_IPC_MutexInitFailed => "VRInitError_IPC_MutexInitFailed"@,
        EVRInitError::VRInitError_IPC_Failed => "VRInitError_IPC_Failed"@,
        EVRInitError::VRInitError_IPC_CompositorConnectFailed => "VRInitError_IPC_CompositorConnectFailed"@,
        EVRInitError::VRInitError_IPC_CompositorInvalidConnectResponse => "VRInitError_IPC_CompositorInvalidConnectResponse"@,
        EVRInitError::VRInitError_IPC_ConnectFailedAfterMultipleAttempts => "VRInitError_IPC_ConnectFailedAfterMultipleAttempts"@,
        EVRInitError::VRInitError_IPC_ConnectFailedAfterTargetExited => "VRInitError_IPC_ConnectFailedAfterTargetExited"@,
        EVRInitError::VRInitError_IPC_NamespaceUnavailable => "VRInitError_IPC_NamespaceUnavailable"@,
        EVRInitError::VRInitError_Compositor_Failed => "VRInitError_Compositor_Failed"@,
        EVRInitError::VRInitError_Compositor_D3D11HardwareRequired => "VRInitError_Compositor_D3D11HardwareRequired"@,
        EVRInitError::VRInitError_Compositor_FirmwareRequiresUpdate => "VRInitError_Compositor_FirmwareRequiresUpdate"@,
        EVRInitError::VRInitError_Compositor_OverlayInitFailed => "VRInitError_Compositor_OverlayInitFailed"@,
        EVRInitError::VRInitError_Compositor_ScreenshotsInitFailed => "VRInitError_Compositor_ScreenshotsInitFailed"@,
        EVRInitError::VRInitError_Compositor_UnableToCreateDevice => "VRInitError_Compositor_UnableToCreateDevice"@,
        EVRInitError::VRInitError_Compositor_SharedStateIsNull => "VRInitError_Compositor_SharedStateIsNull"@,
        EVRInitError::VRInitError_Compositor_NotificationManagerIsNull => "VRInitError_Compositor_NotificationManagerIsNull"@,
        EVRInitError::VRInitError_Compositor_ResourceManagerClientIsNull => "VRInitError_Compositor_ResourceManagerClientIsNull"@,
        EVRInitError::VRInitError_Compositor_MessageOverlaySharedStateInitFailure => "VRInitError_Compositor_MessageOverlaySharedStateInitFailure"@,
        EVRInitError::VRInitError_Compositor_PropertiesInterfaceIsNull => "VRInitError_Compositor_PropertiesInterfaceIsNull"@,
        EVRInitError::VRInitError_Compositor_CreateFullscreenWindowFailed => "VRInitError_Compositor_CreateFullscreenWindowFailed"@,
        EVRInitError::VRInitError_Compositor_SettingsInterfaceIsNull => "VRInitError_Compositor_SettingsInterfaceIsNull"@,
        EVRInitError::VRInitError_Compositor_FailedToShowWindow => "VRInitError_Compositor_FailedToShowWindow"@,
        EVRInitError::VRInitError_Compositor_DistortInterfaceIsNull => "VRInitError_Compositor_DistortInterfaceIsNull"@,
        EVRInitError::VRInitError_Compositor_DisplayFrequencyFailure => "VRInitError_Compositor_DisplayFrequencyFailure"@,
        EVRInitError::VRInitError_Compositor_RendererInitializationFailed => "VRInitError_Compositor_RendererInitializationFailed"@,
        EVRInitError::VRInitError_Compositor_DXGIFactoryInterfaceIsNull => "VRInitError_Compositor_DXGIFactoryInterfaceIsNull"@,
        EVRInitError::VRInitError_Compositor_DXGIFactoryCreateFailed => "VRInitError_Compositor_DXGIFactoryCreateFailed"@,
        EVRInitError::VRInitError_Compositor_DXGIFactoryQueryFailed => "VRInitError_Compositor_DXGIFactoryQueryFailed"@,
        EVRInitError::VRInitError_Compositor_InvalidAdapterDesktop => "VRInitError_Compositor_InvalidAdapterDesktop"@,
        EVRInitError::VRInitError_Compositor_InvalidHmdAttachment => "VRInitError_Compositor_InvalidHmdAttachment"@,
        EVRInitError::VRInitError_Compositor_InvalidOutputDesktop => "VRInitError_Compositor_InvalidOutputDesktop"@,
        EVRInitError::VRInitError_Compositor_InvalidDeviceProvided => "VRInitError_Compositor_InvalidDeviceProvided"@,
        EVRInitError::VRInitError_Compositor_D3D11RendererInitializationFailed => "VRInitError_Compositor_D3D11RendererInitializationFailed"@,
        EVRInitError::VRInitError_Compositor_FailedToFindDisplayMode => "VRInitError_Compositor_FailedToFindDisplayMode"@,
        EVRInitError::VRInitError_Compositor_FailedToCreateSwapChain => "VRInitError_Compositor_FailedToCreateSwapChain"@,
        EVRInitError::VRInitError_Compositor_FailedToGetBackBuffer => "VRInitError_Compositor_FailedToGetBackBuffer"@,
        EVRInitError::VRInitError_Compositor_FailedToCreateRenderTarget => "VRInitError_Compositor_FailedToCreateRenderTarget"@,
        EVRInitError::VRInitError_Compositor_FailedToCreateDXGI2SwapChain => "VRInitError_Compositor_FailedToCreateDXGI2SwapChain"@,
        EVRInitError::VRInitError_Compositor_FailedtoGetDXGI2BackBuffer => "VRInitError_Compositor_FailedtoGetDXGI2BackBuffer"@,
        EVRInitError::VRInitError_Compositor_FailedToCreateDXGI2RenderTarget => "VRInitError_Compositor_FailedToCreateDXGI2RenderTarget"@,
        EVRInitError::VRInitError_Compositor_FailedToGetDXGIDeviceInterface => "VRInitError_Compositor_FailedToGetDXGIDeviceInterface"@,
        EVRInitError::VRInitError_Compositor_SelectDisplayMode => "VRInitError_Compositor_SelectDisplayMode"@,
        EVRInitError::VRInitError_Compositor_FailedToCreateNvAPIRenderTargets => "VRInitError_Compositor_FailedToCreateNvAPIRenderTargets"@,
        EVRInitError::VRInitError_Compositor_NvAPISetDisplayMode => "VRInitError_Compositor_NvAPISetDisplayMode"@,
        EVRInitError::VRInitError_Compositor_FailedToCreateDirectModeDisplay => "VRInitError_Compositor_FailedToCreateDirectModeDisplay"@,
        EVRInitError::VRInitError_Compositor_InvalidHmdPropertyContainer => "VRInitError_Compositor_InvalidHmdPropertyContainer"@,
        EVRInitError::VRInitError_Compositor_UpdateDisplayFrequency => "VRInitError_Compositor_UpdateDisplayFrequency"@,
        EVRInitError::VRInitError_Compositor_CreateRasterizerState => "VRInitError_Compositor_CreateRasterizerState"@,
        EVRInitError::VRInitError_Compositor_CreateWireframeRasterizerState => "VRInitError_Compositor_CreateWireframeRasterizerState"@,
        EVRInitError::VRInitError_Compositor_CreateSamplerState => "VRInitError_Compositor_CreateSamplerState"@,
        EVRInitError::VRInitError_Compositor_CreateClampToBorderSamplerState => "VRInitError_Compositor_CreateClampToBorderSamplerState"@,
        EVRInitError::VRInitError_Compositor_CreateAnisoSamplerState => "VRInitError_Compositor_CreateAnisoSamplerState"@,
        EVRInitError::VRInitError_Compositor_CreateOverlaySamplerState => "VRInitError_Compositor_CreateOverlaySamplerState"@,
        EVRInitError::VRInitError_Compositor_CreatePanoramaSamplerState => "VRInitError_Compositor_CreatePanoramaSamplerState"@,
        EVRInitError::VRInitError_Compositor_CreateFontSamplerState => "VRInitError_Compositor_CreateFontSamplerState"@,
        EVRInitError::VRInitError_Compositor_CreateNoBlendState => "VRInitError_Compositor_CreateNoBlendState"@,
        EVRInitError::VRInitError_Compositor_CreateBlendState => "VRInitError_Compositor_CreateBlendState"@,
        EVRInitError::VRInitError_Compositor_CreateAlphaBlendState => "VRInitError_Compositor_CreateAlphaBlendState"@,
        EVRInitError::VRInitError_Compositor_CreateBlendStateMaskR => "VRInitError_Compositor_CreateBlendStateMaskR"@,
        EVRInitError::VRInitError_Compositor_CreateBlendStateMaskG => "VRInitError_Compositor_CreateBlendStateMaskG"@,
        EVRInitError::VRInitError_Compositor_CreateBlendStateMaskB => "VRInitError_Compositor_CreateBlendStateMaskB"@,
        EVRInitError::VRInitError_Compositor_CreateDepthStencilState => "VRInitError_Compositor_CreateDepthStencilState"@,
        EVRInitError::VRInitError_Compositor_CreateDepthStencilStateNoWrite => "VRInitError_Compositor_CreateDepthStencilStateNoWrite"@,
        EVRInitError::VRInitError_Compositor_CreateDepthStencilStateNoDepth => "VRInitError_Compositor_CreateDepthStencilStateNoDepth"@,
        EVRInitError::VRInitError_Compositor_CreateFlushTexture => "VRInitError_Compositor_CreateFlushTexture"@,
        EVRInitError::VRInitError_Compositor_CreateDistortionSurfaces => "VRInitError_Compositor_CreateDistortionSurfaces"@,
        EVRInitError::VRInitError_Compositor_CreateConstantBuffer => "VRInitError_Compositor_CreateConstantBuffer"@,
        EVRInitError::VRInitError_Compositor_CreateHmdPoseConstantBuffer => "VRInitError_Compositor_CreateHmdPoseConstantBuffer"@,
        EVRInitError::VRInitError_Compositor_CreateHmdPoseStagingConstantBuffer => "VRInitError_Compositor_CreateHmdPoseStagingConstantBuffer"@,
        EVRInitError::VRInitError_Compositor_CreateSharedFrameInfoConstantBuffer => "VRInitError_Compositor_CreateSharedFrameInfoConstantBuffer"@,
        EVRInitError::VRInitError_Compositor_CreateOverlayConstantBuffer => "VRInitError_Compositor_CreateOverlayConstantBuffer"@,
        EVRInitError::VRInitError_Compositor_CreateSceneTextureIndexConstantBuffer => "VRInitError_Compositor_CreateSceneTextureIndexConstantBuffer"@,
        EVRInitError::VRInitError_Compositor_CreateReadableSceneTextureIndexConstantBuffer => "VRInitError_Compositor_CreateReadableSceneTextureIndexConstantBuffer"@,
        EVRInitError::VRInitError_Compositor_CreateLayerGraphicsTextureIndexConstantBuffer => "VRInitError_Compositor_CreateLayerGraphicsTextureIndexConstantBuffer"@,
        EVRInitError::VRInitError_Compositor_CreateLayerComputeTextureIndexConstantBuffer => "VRInitError_Compositor_CreateLayerComputeTextureIndexConstantBuffer"@,
        EVRInitError::VRInitError_Compositor_CreateLayerComputeSceneTextureIndexConstantBuffer => "VRInitError_Compositor_CreateLayerComputeSceneTextureIndexConstantBuffer"@,
        EVRInitError::VRInitError_Compositor_CreateComputeHmdPoseConstantBuffer => "VRInitError_Compositor_CreateComputeHmdPoseConstantBuffer"@,
        EVRInitError::VRInitError_Compositor_CreateGeomConstantBuffer => "VRInitError_Compositor_CreateGeomConstantBuffer"@,
        EVRInitError::VRInitError_Compositor_CreatePanelMaskConstantBuffer => "VRInitError_Compositor_CreatePanelMaskConstantBuffer"@,
        EVRInitError::VRInitError_Compositor_CreatePixelSimUBO => "VRInitError_Compositor_CreatePixelSimUBO"@,
        EVRInitError::VRInitError_Compositor_CreateMSAARenderTextures => "VRInitError_Compositor_CreateMSAARenderTextures"@,
        EVRInitError::VRInitError_Compositor_CreateResolveRenderTextures => "VRInitError_Compositor_CreateResolveRenderTextures"@,
        EVRInitError::VRInitError_Compositor_CreateComputeResolveRenderTextures => "VRInitError_Compositor_CreateComputeResolveRenderTextures"@,
        EVRInitError::VRInitError_Compositor_CreateDriverDirectModeResolveTextures => "VRInitError_Compositor_CreateDriverDirectModeResolveTextures"@,
        EVRInitError::VRInitError_Compositor_OpenDriverDirectModeResolveTextures => "VRInitError_Compositor_OpenDriverDirectModeResolveTextures"@,
        EVRInitError::VRInitError_Compositor_CreateFallbackSyncTexture => "VRInitError_Compositor_CreateFallbackSyncTexture"@,
        EVRInitError::VRInitError_Compositor_ShareFallbackSyncTexture => "VRInitError_Compositor_ShareFallbackSyncTexture"@,
        EVRInitError::VRInitError_Compositor_CreateOverlayIndexBuffer => "VRInitError_Compositor_CreateOverlayIndexBuffer"@,
        EVRInitError::VRInitError_Compositor_CreateOverlayVertexBuffer => "VRInitError_Compositor_CreateOverlayVertexBuffer"@,
        EVRInitError::VRInitError_Compositor_CreateTextVertexBuffer => "VRInitError_Compositor_CreateTextVertexBuffer"@,
        EVRInitError::VRInitError_Compositor_CreateTextIndexBuffer => "VRInitError_Compositor_CreateTextIndexBuffer"@,
        EVRInitError::VRInitError_Compositor_CreateMirrorTextures => "VRInitError_Compositor_CreateMirrorTextures"@,
        EVRInitError::VRInitError_Compositor_CreateLastFrameRenderTexture => "VRInitError_Compositor_CreateLastFrameRenderTexture"@,
        EVRInitError::VRInitError_Compositor_CreateMirrorOverlay => "VRInitError_Compositor_CreateMirrorOverlay"@,
        EVRInitError::VRInitError_Compositor_FailedToCreateVirtualDisplayBackbuffer => "VRInitError_Compositor_FailedToCreateVirtualDisplayBackbuffer"@,
        EVRInitError::VRInitError_Compositor_DisplayModeNotSupported => "VRInitError_Compositor_DisplayModeNotSupported"@,
        EVRInitError::VRInitError_Compositor_CreateOverlayInvalidCall => "VRInitError_Compositor_CreateOverlayInvalidCall"@,
        EVRInitError::VRInitError_Compositor_CreateOverlayAlreadyInitialized => "VRInitError_Compositor_CreateOverlayAlreadyInitialized"@,
        EVRInitError::VRInitError_Compositor_FailedToCreateMailbox => "VRInitError_Compositor_FailedToCreateMailbox"@,
        EVRInitError::VRInitError_Compositor_WindowInterfaceIsNull => "VRInitError_Compositor_WindowInterfaceIsNull"@,
        EVRInitError::VRInitError_Compositor_SystemLayerCreateInstance => "VRInitError_Compositor_SystemLayerCreateInstance"@,
        EVRInitError::VRInitError_Compositor_SystemLayerCreateSession => "VRInitError_Compositor_SystemLayerCreateSession"@,
        EVRInitError::VRInitError_VendorSpecific_UnableToConnectToOculusRuntime => "VRInitError_VendorSpecific_UnableToConnectToOculusRuntime"@,
        EVRInitError::VRInitError_VendorSpecific_WindowsNotInDevMode => "VRInitError_VendorSpecific_WindowsNotInDevMode"@,
        EVRInitError::VRInitError_VendorSpecific_HmdFound_CantOpenDevice => "VRInitError_VendorSpecific_HmdFound_CantOpenDevice"@,
        EVRInitError::VRInitError_VendorSpecific_HmdFound_UnableToRequestConfigStart => "VRInitError_VendorSpecific_HmdFound_UnableToRequestConfigStart"@,
        EVRInitError::VRInitError_VendorSpecific_HmdFound_NoStoredConfig => "VRInitError_VendorSpecific_HmdFound_NoStoredConfig"@,
        EVRInitError::VRInitError_VendorSpecific_HmdFound_ConfigTooBig => "VRInitError_VendorSpecific_HmdFound_ConfigTooBig"@,
        EVRInitError::VRInitError_VendorSpecific_HmdFound_ConfigTooSmall => "VRInitError_VendorSpecific_HmdFound_ConfigTooSmall"@,
        EVRInitError::VRInitError_VendorSpecific_HmdFound_UnableToInitZLib => "VRInitError_VendorSpecific_HmdFound_UnableToInitZLib"@,
        EVRInitError::VRInitError_VendorSpecific_HmdFound_CantReadFirmwareVersion => "VRInitError_VendorSpecific_HmdFound_CantReadFirmwareVersion"@,
        EVRInitError::VRInitError_VendorSpecific_HmdFound_UnableToSendUserDataStart => "VRInitError_VendorSpecific_HmdFound_UnableToSendUserDataStart"@,
        EVRInitError::VRInitError_VendorSpecific_HmdFound_UnableToGetUserDataStart => "VRInitError_VendorSpecific_HmdFound_UnableToGetUserDataStart"@,
        EVRInitError::VRInitError_VendorSpecific_HmdFound_UnableToGetUserDataNext => "VRInitError_VendorSpecific_HmdFound_UnableToGetUserDataNext"@,
        EVRInitError::VRInitError_VendorSpecific_HmdFound_UserDataAddressRange => "VRInitError_VendorSpecific_HmdFound_UserDataAddressRange"@,
        EVRInitError::VRInitError_VendorSpecific_HmdFound_UserDataError => "VRInitError_VendorSpecific_HmdFound_UserDataError"@,
        EVRInitError::VRInitError_VendorSpecific_HmdFound_ConfigFailedSanityCheck => "VRInitError_VendorSpecific_HmdFound_ConfigFailedSanityCheck"@,
        EVRInitError::VRInitError_VendorSpecific_OculusRuntimeBadInstall => "VRInitError_VendorSpecific_OculusRuntimeBadInstall"@,
        EVRInitError::VRInitError_Steam_SteamInstallationNotFound => "VRInitError_Steam_SteamInstallationNotFound"@,
        EVRInitError::VRInitError_LastError => "VRInitError_LastError"@,
    }
}

/// Translates an initialization error to its symbol.
pub fn init_error_symbol(e: EVRInitError) -> (symbol: &'static str)
    ensures
        symbol@ == spec_init_error_symbol(e),
{
    match e {
        EVRInitError::VRInitError_None => "VRInitError_None",
        EVRInitError::VRInitError_Unknown => "VRInitError_Unknown",
        EVRInitError::VRInitError_Init_InstallationNotFound => "VRInitError_Init_InstallationNotFound",
        EVRInitError::VRInitError_Init_InstallationCorrupt => "VRInitError_Init_InstallationCorrupt",
        EVRInitError::VRInitError_Init_VRClientDLLNotFound => "VRInitError_Init_VRClientDLLNotFound",
        EVRInitError::VRInitError_Init_FileNotFound => "VRInitError_Init_FileNotFound",
        EVRInitError::VRInitError_Init_FactoryNotFound => "VRInitError_Init_FactoryNotFound",
        EVRInitError::VRInitError_Init_InterfaceNotFound => "VRInitError_Init_InterfaceNotFound",
        EVRInitError::VRInitError_Init_InvalidInterface => "VRInitError_Init_InvalidInterface",
        EVRInitError::VRInitError_Init_UserConfigDirectoryInvalid => "VRInitError_Init_UserConfigDirectoryInvalid",
        EVRInitError::VRInitError_Init_HmdNotFound => "VRInitError_Init_HmdNotFound",
        EVRInitError::VRInitError_Init_NotInitialized => "VRInitError_Init_NotInitialized",
        EVRInitError::VRInitError_Init_PathRegistryNotFound => "VRInitError_Init_PathRegistryNotFound",
        EVRInitError::VRInitError_Init_NoConfigPath => "VRInitError_Init_NoConfigPath",
        EVRInitError::VRInitError_Init_NoLogPath => "VRInitError_Init_NoLogPath",
        EVRInitError::VRInitError_Init_PathRegistryNotWritable => "VRInitError_Init_PathRegistryNotWritable",
        EVRInitError::VRInitError_Init_AppInfoInitFailed => "VRInitError_Init_AppInfoInitFailed",
        EVRInitError::VRInitError_Init_Retry => "VRInitError_Init_Retry",
        EVRInitError::VRInitError_Init_InitCanceledByUser => "VRInitError_Init_InitCanceledByUser",
        EVRInitError::VRInitError_Init_AnotherAppLaunching => "VRInitError_Init_AnotherAppLaunching",
        EVRInitError::VRInitError_Init_SettingsInitFailed => "VRInitError_Init_SettingsInitFailed",
        EVRInitError::VRInitError_Init_ShuttingDown => "VRInitError_Init_ShuttingDown",
        EVRInitError::VRInitError_Init_TooManyObjects => "VRInitError_Init_TooManyObjects",
        EVRInitError::VRInitError_Init_NoServerForBackgroundApp => "VRInitError_Init_NoServerForBackgroundApp",
        EVRInitError::VRInitError_Init_NotSupportedWithCompositor => "VRInitError_Init_NotSupportedWithCompositor",
        EVRInitError::VRInitError_Init_NotAvailableToUtilityApps => "VRInitError_Init_NotAvailableToUtilityApps",
        EVRInitError::VRInitError_Init_Internal => "VRInitError_Init_Internal",
        EVRInitError::VRInitError_Init_HmdDriverIdIsNone => "VRInitError_Init_HmdDriverIdIsNone",
        EVRInitError::VRInitError_Init_HmdNotFoundPresenceFailed => "VRInitError_Init_HmdNotFoundPresenceFailed",
        EVRInitError::VRInitError_Init_VRMonitorNotFound => "VRInitError_Init_VRMonitorNotFound",
        EVRInitError::VRInitError_Init_VRMonitorStartupFailed => "VRInitError_Init_VRMonitorStartupFailed",
        EVRInitError::VRInitError_Init_LowPowerWatchdogNotSupported => "VRInitError_Init_LowPowerWatchdogNotSupported",
        EVRInitError::VRInitError_Init_InvalidApplicationType => "VRInitError_Init_InvalidApplicationType",
        EVRInitError::VRInitError_Init_NotAvailableToWatchdogApps => "VRInitError_Init_NotAvailableToWatchdogApps",
        EVRInitError::VRInitError_Init_WatchdogDisabledInSettings => "VRInitError_Init_WatchdogDisabledInSettings",
        EVRInitError::VRInitError_Init_VRDashboardNotFound => "VRInitError_Init_VRDashboardNotFound",
        EVRInitError::VRInitError_Init_VRDashboardStartupFailed => "VRInitError_Init_VRDashboardStartupFailed",
        EVRInitError::VRInitError_Init_VRHomeNotFound => "VRInitError_Init_VRHomeNotFound",
        EVRInitError::VRInitError_Init_VRHomeStartupFailed => "VRInitError_Init_VRHomeStartupFailed",
        EVRInitError::VRInitError_Init_RebootingBusy => "VRInitError_Init_RebootingBusy",
        EVRInitError::VRInitError_Init_FirmwareUpdateBusy => "VRInitError_Init_FirmwareUpdateBusy",
        EVRInitError::VRInitError_Init_FirmwareRecoveryBusy => "VRInitError_Init_FirmwareRecoveryBusy",
        EVRInitError::VRInitError_Init_USBServiceBusy => "VRInitError_Init_USBServiceBusy",
        EVRInitError::VRInitError_Init_VRWebHelperStartupFailed => "VRInitError_Init_VRWebHelperStartupFailed",
        EVRInitError::VRInitError_Init_TrackerManagerInitFailed => "VRInitError_Init_TrackerManagerInitFailed",
        EVRInitError::VRInitError_Init_AlreadyRunning => "VRInitError_Init_AlreadyRunning",
        EVRInitError::VRInitError_Init_FailedForVrMonitor => "VRInitError_Init_FailedForVrMonitor",
        EVRInitError::VRInitError_Init_PropertyManagerInitFailed => "VRInitError_Init_PropertyManagerInitFailed",
        EVRInitError::VRInitError_Init_WebServerFailed => "VRInitError_Init_WebServerFailed",
        EVRInitError::VRInitError_Init_IllegalTypeTransition => "VRInitError_Init_IllegalTypeTransition",
        EVRInitError::VRInitError_Init_MismatchedRuntimes => "VRInitError_Init_MismatchedRuntimes",
        EVRInitError::VRInitError_Init_InvalidProcessId => "VRInitError_Init_InvalidProcessId",
        EVRInitError::VRInitError_Init_VRServiceStartupFailed => "VRInitError_Init_VRServiceStartupFailed",
        EVRInitError::VRInitError_Init_PrismNeedsNewDrivers => "VRInitError_Init_PrismNeedsNewDrivers",
        EVRInitError::VRInitError_Init_PrismStartupTimedOut => "VRInitError_Init_PrismStartupTimedOut",
        EVRInitError::VRInitError_Init_CouldNotStartPrism => "VRInitError_Init_CouldNotStartPrism",
        EVRInitError::VRInitError_Init_CreateDriverDirectDeviceFailed => "VRInitError_Init_CreateDriverDirectDeviceFailed",
        EVRInitError::VRInitError_Init_PrismExitedUnexpectedly => "VRInitError_Init_PrismExitedUnexpectedly",
        EVRInitError::VRInitError_Driver_Failed => "VRInitError_Driver_Failed",
        EVRInitError::VRInitError_Driver_Unknown => "VRInitError_Driver_Unknown",
        EVRInitError::VRInitError_Driver_HmdUnknown => "VRInitError_Driver_HmdUnknown",
        EVRInitError::VRInitError_Driver_NotLoaded => "VRInitError_Driver_NotLoaded",
        EVRInitError::VRInitError_Driver_RuntimeOutOfDate => "VRInitError_Driver_RuntimeOutOfDate",
        EVRInitError::VRInitError_Driver_HmdInUse => "VRInitError_Driver_HmdInUse",
        EVRInitError::VRInitError_Driver_NotCalibrated => "VRInitError_Driver_NotCalibrated",
        EVRInitError::VRInitError_Driver_CalibrationInvalid => "VRInitError_Driver_CalibrationInvalid",
        EVRInitError::VRInitError_Driver_HmdDisplayNotFound => "VRInitError_Driver_HmdDisplayNotFound",
        EVRInitError::VRInitError_Driver_TrackedDeviceInterfaceUnknown => "VRInitError_Driver_TrackedDeviceInterfaceUnknown",
        EVRInitError::VRInitError_Driver_HmdDriverIdOutOfBounds => "VRInitError_Driver_HmdDriverIdOutOfBounds",
        EVRInitError::VRInitError_Driver_HmdDisplayMirrored => "VRInitError_Driver_HmdDisplayMirrored",
        EVRInitError::VRInitError_Driver_HmdDisplayNotFoundLaptop => "VRInitError_Driver_HmdDisplayNotFoundLaptop",
        EVRInitError::VRInitError_IPC_ServerInitFailed => "VRInitError_IPC_ServerInitFailed",
        EVRInitError::VRInitError_IPC_ConnectFailed => "VRInitError_IPC_ConnectFailed",
        EVRInitError::VRInitError_IPC_SharedStateInitFailed => "VRInitError_IPC_SharedStateInitFailed",
        EVRInitError::VRInitError_IPC_CompositorInitFailed => "VRInitError_IPC_CompositorInitFailed",
        EVRInitError::VRInitError_IPC_MutexInitFailed => "VRInitError_IPC_MutexInitFailed",
        EVRInitError::VRInitError_IPC_Failed => "VRInitError_IPC_Failed",
        EVRInitError::VRInitError_IPC_CompositorConnectFailed => "VRInitError_IPC_CompositorConnectFailed",
        EVRInitError::VRInitError_IPC_CompositorInvalidConnectResponse => "VRInitError_IPC_CompositorInvalidConnectResponse",
        EVRInitError::VRInitError_IPC_ConnectFailedAfterMultipleAttempts => "VRInitError_IPC_ConnectFailedAfterMultipleAttempts",
        EVRInitError::VRInitError_IPC_ConnectFailedAfterTargetExited => "VRInitError_IPC_ConnectFailedAfterTargetExited",
        EVRInitError::VRInitError_IPC_NamespaceUnavailable => "VRInitError_IPC_NamespaceUnavailable",
        EVRInitError::VRInitError_Compositor_Failed => "VRInitError_Compositor_Failed",
        EVRInitError::VRInitError_Compositor_D3D11HardwareRequired => "VRInitError_Compositor_D3D11HardwareRequired",
        EVRInitError::VRInitError_Compositor_FirmwareRequiresUpdate => "VRInitError_Compositor_FirmwareRequiresUpdate",
        EVRInitError::VRInitError_Compositor_OverlayInitFailed => "VRInitError_Compositor_OverlayInitFailed",
        EVRInitError::VRInitError_Compositor_ScreenshotsInitFailed => "VRInitError_Compositor_ScreenshotsInitFailed",
        EVRInitError::VRInitError_Compositor_UnableToCreateDevice => "VRInitError_Compositor_UnableToCreateDevice",
        EVRInitError::VRInitError_Compositor_SharedStateIsNull => "VRInitError_Compositor_SharedStateIsNull",
        EVRInitError::VRInitError_Compositor_NotificationManagerIsNull => "VRInitError_Compositor_NotificationManagerIsNull",
        EVRInitError::VRInitError_Compositor_ResourceManagerClientIsNull => "VRInitError_Compositor_ResourceManagerClientIsNull",
        EVRInitError::VRInitError_Compositor_MessageOverlaySharedStateInitFailure => "VRInitError_Compositor_MessageOverlaySharedStateInitFailure",
        EVRInitError::VRInitError_Compositor_PropertiesInterfaceIsNull => "VRInitError_Compositor_PropertiesInterfaceIsNull",
        EVRInitError::VRInitError_Compositor_CreateFullscreenWindowFailed => "VRInitError_Compositor_CreateFullscreenWindowFailed",
        EVRInitError::VRInitError_Compositor_SettingsInterfaceIsNull => "VRInitError_Compositor_SettingsInterfaceIsNull",
        EVRInitError::VRInitError_Compositor_FailedToShowWindow => "VRInitError_Compositor_FailedToShowWindow",
        EVRInitError::VRInitError_Compositor_DistortInterfaceIsNull => "VRInitError_Compositor_DistortInterfaceIsNull",
        EVRInitError::VRInitError_Compositor_DisplayFrequencyFailure => "VRInitError_Compositor_DisplayFrequencyFailure",
        EVRInitError::VRInitError_Compositor_RendererInitializationFailed => "VRInitError_Compositor_RendererInitializationFailed",
        EVRInitError::VRInitError_Compositor_DXGIFactoryInterfaceIsNull => "VRInitError_Compositor_DXGIFactoryInterfaceIsNull",
        EVRInitError::VRInitError_Compositor_DXGIFactoryCreateFailed => "VRInitError_Compositor_DXGIFactoryCreateFailed",
        EVRInitError::VRInitError_Compositor_DXGIFactoryQueryFailed => "VRInitError_Compositor_DXGIFactoryQueryFailed",
        EVRInitError::VRInitError_Compositor_InvalidAdapterDesktop => "VRInitError_Compositor_InvalidAdapterDesktop",
        EVRInitError::VRInitError_Compositor_InvalidHmdAttachment => "VRInitError_Compositor_InvalidHmdAttachment",
        EVRInitError::VRInitError_Compositor_InvalidOutputDesktop => "VRInitError_Compositor_InvalidOutputDesktop",
        EVRInitError::VRInitError_Compositor_InvalidDeviceProvided => "VRInitError_Compositor_InvalidDeviceProvided",
        EVRInitError::VRInitError_Compositor_D3D11RendererInitializationFailed => "VRInitError_Compositor_D3D11RendererInitializationFailed",
        EVRInitError::VRInitError_Compositor_FailedToFindDisplayMode => "VRInitError_Compositor_FailedToFindDisplayMode",
        EVRInitError::VRInitError_Compositor_FailedToCreateSwapChain => "VRInitError_Compositor_FailedToCreateSwapChain",
        EVRInitError::VRInitError_Compositor_FailedToGetBackBuffer => "VRInitError_Compositor_FailedToGetBackBuffer",
        EVRInitError::VRInitError_Compositor_FailedToCreateRenderTarget => "VRInitError_Compositor_FailedToCreateRenderTarget",
        EVRInitError::VRInitError_Compositor_FailedToCreateDXGI2SwapChain => "VRInitError_Compositor_FailedToCreateDXGI2SwapChain",
        EVRInitError::VRInitError_Compositor_FailedtoGetDXGI2BackBuffer => "VRInitError_Compositor_FailedtoGetDXGI2BackBuffer",
        EVRInitError::VRInitError_Compositor_FailedToCreateDXGI2RenderTarget => "VRInitError_Compositor_FailedToCreateDXGI2RenderTarget",
        EVRInitError::VRInitError_Compositor_FailedToGetDXGIDeviceInterface => "VRInitError_Compositor_FailedToGetDXGIDeviceInterface",
        EVRInitError::VRInitError_Compositor_SelectDisplayMode => "VRInitError_Compositor_SelectDisplayMode",
        EVRInitError::VRInitError_Compositor_FailedToCreateNvAPIRenderTargets => "VRInitError_Compositor_FailedToCreateNvAPIRenderTargets",
        EVRInitError::VRInitError_Compositor_NvAPISetDisplayMode => "VRInitError_Compositor_NvAPISetDisplayMode",
        EVRInitError::VRInitError_Compositor_FailedToCreateDirectModeDisplay => "VRInitError_Compositor_FailedToCreateDirectModeDisplay",
        EVRInitError::VRInitError_Compositor_InvalidHmdPropertyContainer => "VRInitError_Compositor_InvalidHmdPropertyContainer",
        EVRInitError::VRInitError_Compositor_UpdateDisplayFrequency => "VRInitError_Compositor_UpdateDisplayFrequency",
        EVRInitError::VRInitError_Compositor_CreateRasterizerState => "VRInitError_Compositor_CreateRasterizerState",
        EVRInitError::VRInitError_Compositor_CreateWireframeRasterizerState => "VRInitError_Compositor_CreateWireframeRasterizerState",
        EVRInitError::VRInitError_Compositor_CreateSamplerState => "VRInitError_Compositor_CreateSamplerState",
        EVRInitError::VRInitError_Compositor_CreateClampToBorderSamplerState => "VRInitError_Compositor_CreateClampToBorderSamplerState",
        EVRInitError::VRInitError_Compositor_CreateAnisoSamplerState => "VRInitError_Compositor_CreateAnisoSamplerState",
        EVRInitError::VRInitError_Compositor_CreateOverlaySamplerState => "VRInitError_Compositor_CreateOverlaySamplerState",
        EVRInitError::VRInitError_Compositor_CreatePanoramaSamplerState => "VRInitError_Compositor_CreatePanoramaSamplerState",
        EVRInitError::VRInitError_Compositor_CreateFontSamplerState => "VRInitError_Compositor_CreateFontSamplerState",
        EVRInitError::VRInitError_Compositor_CreateNoBlendState => "VRInitError_Compositor_CreateNoBlendState",
        EVRInitError::VRInitError_Compositor_CreateBlendState => "VRInitError_Compositor_CreateBlendState",
        EVRInitError::VRInitError_Compositor_CreateAlphaBlendState => "VRInitError_Compositor_CreateAlphaBlendState",
        EVRInitError::VRInitError_Compositor_CreateBlendStateMaskR => "VRInitError_Compositor_CreateBlendStateMaskR",
        EVRInitError::VRInitError_Compositor_CreateBlendStateMaskG => "VRInitError_Compositor_CreateBlendStateMaskG",
        EVRInitError::VRInitError_Compositor_CreateBlendStateMaskB => "VRInitError_Compositor_CreateBlendStateMaskB",
        EVRInitError::VRInitError_Compositor_CreateDepthStencilState => "VRInitError_Compositor_CreateDepthStencilState",
        EVRInitError::VRInitError_Compositor_CreateDepthStencilStateNoWrite => "VRInitError_Compositor_CreateDepthStencilStateNoWrite",
        EVRInitError::VRInitError_Compositor_CreateDepthStencilStateNoDepth => "VRInitError_Compositor_CreateDepthStencilStateNoDepth",
        EVRInitError::VRInitError_Compositor_CreateFlushTexture => "VRInitError_Compositor_CreateFlushTexture",
        EVRInitError::VRInitError_Compositor_CreateDistortionSurfaces => "VRInitError_Compositor_CreateDistortionSurfaces",
        EVRInitError::VRInitError_Compositor_CreateConstantBuffer => "VRInitError_Compositor_CreateConstantBuffer",
        EVRInitError::VRInitError_Compositor_CreateHmdPoseConstantBuffer => "VRInitError_Compositor_CreateHmdPoseConstantBuffer",
        EVRInitError::VRInitError_Compositor_CreateHmdPoseStagingConstantBuffer => "VRInitError_Compositor_CreateHmdPoseStagingConstantBuffer",
        EVRInitError::VRInitError_Compositor_CreateSharedFrameInfoConstantBuffer => "VRInitError_Compositor_CreateSharedFrameInfoConstantBuffer",
        EVRInitError::VRInitError_Compositor_CreateOverlayConstantBuffer => "VRInitError_Compositor_CreateOverlayConstantBuffer",
        EVRInitError::VRInitError_Compositor_CreateSceneTextureIndexConstantBuffer => "VRInitError_Compositor_CreateSceneTextureIndexConstantBuffer",
        EVRInitError::VRInitError_Compositor_CreateReadableSceneTextureIndexConstantBuffer => "VRInitError_Compositor_CreateReadableSceneTextureIndexConstantBuffer",
        EVRInitError::VRInitError_Compositor_CreateLayerGraphicsTextureIndexConstantBuffer => "VRInitError_Compositor_CreateLayerGraphicsTextureIndexConstantBuffer",
        EVRInitError::VRInitError_Compositor_CreateLayerComputeTextureIndexConstantBuffer => "VRInitError_Compositor_CreateLayerComputeTextureIndexConstantBuffer",
        EVRInitError::VRInitError_Compositor_CreateLayerComputeSceneTextureIndexConstantBuffer => "VRInitError_Compositor_CreateLayerComputeSceneTextureIndexConstantBuffer",
        EVRInitError::VRInitError_Compositor_CreateComputeHmdPoseConstantBuffer => "VRInitError_Compositor_CreateComputeHmdPoseConstantBuffer",
        EVRInitError::VRInitError_Compositor_CreateGeomConstantBuffer => "VRInitError_Compositor_CreateGeomConstantBuffer",
        EVRInitError::VRInitError_Compositor_CreatePanelMaskConstantBuffer => "VRInitError_Compositor_CreatePanelMaskConstantBuffer",
        EVRInitError::VRInitError_Compositor_CreatePixelSimUBO => "VRInitError_Compositor_CreatePixelSimUBO",
        EVRInitError::VRInitError_Compositor_CreateMSAARenderTextures => "VRInitError_Compositor_CreateMSAARenderTextures",
        EVRInitError::VRInitError_Compositor_CreateResolveRenderTextures => "VRInitError_Compositor_CreateResolveRenderTextures",
        EVRInitError::VRInitError_Compositor_CreateComputeResolveRenderTextures => "VRInitError_Compositor_CreateComputeResolveRenderTextures",
        EVRInitError::VRInitError_Compositor_CreateDriverDirectModeResolveTextures => "VRInitError_Compositor_CreateDriverDirectModeResolveTextures",
        EVRInitError::VRInitError_Compositor_OpenDriverDirectModeResolveTextures => "VRInitError_Compositor_OpenDriverDirectModeResolveTextures",
        EVRInitError::VRInitError_Compositor_CreateFallbackSyncTexture => "VRInitError_Compositor_CreateFallbackSyncTexture",
        EVRInitError::VRInitError_Compositor_ShareFallbackSyncTexture => "VRInitError_Compositor_ShareFallbackSyncTexture",
        EVRInitError::VRInitError_Compositor_CreateOverlayIndexBuffer => "VRInitError_Compositor_CreateOverlayIndexBuffer",
        EVRInitError::VRInitError_Compositor_CreateOverlayVertexBuffer => "VRInitError_Compositor_CreateOverlayVertexBuffer",
        EVRInitError::VRInitError_Compositor_CreateTextVertexBuffer => "VRInitError_Compositor_CreateTextVertexBuffer",
        EVRInitError::VRInitError_Compositor_CreateTextIndexBuffer => "VRInitError_Compositor_CreateTextIndexBuffer",
        EVRInitError::VRInitError_Compositor_CreateMirrorTextures => "VRInitError_Compositor_CreateMirrorTextures",
        EVRInitError::VRInitError_Compositor_CreateLastFrameRenderTexture => "VRInitError_Compositor_CreateLastFrameRenderTexture",
        EVRInitError::VRInitError_Compositor_CreateMirrorOverlay => "VRInitError_Compositor_CreateMirrorOverlay",
        EVRInitError::VRInitError_Compositor_FailedToCreateVirtualDisplayBackbuffer => "VRInitError_Compositor_FailedToCreateVirtualDisplayBackbuffer",
        EVRInitError::VRInitError_Compositor_DisplayModeNotSupported => "VRInitError_Compositor_DisplayModeNotSupported",
        EVRInitError::VRInitError_Compositor_CreateOverlayInvalidCall => "VRInitError_Compositor_CreateOverlayInvalidCall",
        EVRInitError::VRInitError_Compositor_CreateOverlayAlreadyInitialized => "VRInitError_Compositor_CreateOverlayAlreadyInitialized",
        EVRInitError::VRInitError_Compositor_FailedToCreateMailbox => "VRInitError_Compositor_FailedToCreateMailbox",
        EVRInitError::VRInitError_Compositor_WindowInterfaceIsNull => "VRInitError_Compositor_WindowInterfaceIsNull",
        EVRInitError::VRInitError_Compositor_SystemLayerCreateInstance => "VRInitError_Compositor_SystemLayerCreateInstance",
        EVRInitError::VRInitError_Compositor_SystemLayerCreateSession => "VRInitError_Compositor_SystemLayerCreateSession",
        EVRInitError::VRInitError_VendorSpecific_UnableToConnectToOculusRuntime => "VRInitError_VendorSpecific_UnableToConnectToOculusRuntime",
        EVRInitError::VRInitError_VendorSpecific_WindowsNotInDevMode => "VRInitError_VendorSpecific_WindowsNotInDevMode",
        EVRInitError::VRInitError_VendorSpecific_HmdFound_CantOpenDevice => "VRInitError_VendorSpecific_HmdFound_CantOpenDevice",
        EVRInitError::VRInitError_VendorSpecific_HmdFound_UnableToRequestConfigStart => "VRInitError_VendorSpecific_HmdFound_UnableToRequestConfigStart",
        EVRInitError::VRInitError_VendorSpecific_HmdFound_NoStoredConfig => "VRInitError_VendorSpecific_HmdFound_NoStoredConfig",
        EVRInitError::VRInitError_VendorSpecific_HmdFound_ConfigTooBig => "VRInitError_VendorSpecific_HmdFound_ConfigTooBig",
        EVRInitError::VRInitError_VendorSpecific_HmdFound_ConfigTooSmall => "VRInitError_VendorSpecific_HmdFound_ConfigTooSmall",
        EVRInitError::VRInitError_VendorSpecific_HmdFound_UnableToInitZLib => "VRInitError_VendorSpecific_HmdFound_UnableToInitZLib",
        EVRInitError::VRInitError_VendorSpecific_HmdFound_CantReadFirmwareVersion => "VRInitError_VendorSpecific_HmdFound_CantReadFirmwareVersion",
        EVRInitError::VRInitError_VendorSpecific_HmdFound_UnableToSendUserDataStart => "VRInitError_VendorSpecific_HmdFound_UnableToSendUserDataStart",
        EVRInitError::VRInitError_VendorSpecific_HmdFound_UnableToGetUserDataStart => "VRInitError_VendorSpecific_HmdFound_UnableToGetUserDataStart",
        EVRInitError::VRInitError_VendorSpecific_HmdFound_UnableToGetUserDataNext => "VRInitError_VendorSpecific_HmdFound_UnableToGetUserDataNext",
        EVRInitError::VRInitError_VendorSpecific_HmdFound_UserDataAddressRange => "VRInitError_VendorSpecific_HmdFound_UserDataAddressRange",
        EVRInitError::VRInitError_VendorSpecific_HmdFound_UserDataError => "VRInitError_VendorSpecific_HmdFound_UserDataError",
        EVRInitError::VRInitError_VendorSpecific_HmdFound_ConfigFailedSanityCheck => "VRInitError_VendorSpecific_HmdFound_ConfigFailedSanityCheck",
        EVRInitError::VRInitError_VendorSpecific_OculusRuntimeBadInstall => "VRInitError_VendorSpecific_OculusRuntimeBadInstall",
        EVRInitError::VRInitError_Steam_SteamInstallationNotFound => "VRInitError_Steam_SteamInstallationNotFound",
        EVRInitError::VRInitError_LastError => "VRInitError_LastError",
    }
}

} // verus!
