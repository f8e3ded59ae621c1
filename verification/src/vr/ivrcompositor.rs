use vstd::prelude::*;

verus! {

#[allow(non_camel_case_types)]
#[derive(Clone, Copy, Debug, PartialEq, Eq, Structural)]
pub enum EVRCompositorError {
    VRCompositorError_None,
    VRCompositorError_RequestFailed,
    VRCompositorError_IncompatibleVersion,
    VRCompositorError_DoNotHaveFocus,
    VRCompositorError_InvalidTexture,
    VRCompositorError_IsNotSceneApplication,
    VRCompositorError_TextureIsOnWrongDevice,
    VRCompositorError_TextureUsesUnsupportedFormat,
    VRCompositorError_SharedTexturesNotSupported,
    VRCompositorError_IndexOutOfRange,
    VRCompositorError_AlreadySubmitted,
    VRCompositorError_InvalidBounds,
    VRCompositorError_AlreadySet,
}

#[allow(non_camel_case_types)]
#[derive(Clone, Copy, Debug, PartialEq, Eq, Structural)]
pub enum EVRCompositorTimingMode {
    VRCompositorTimingMode_Implicit,
    VRCompositorTimingMode_Explicit_RuntimePerformsPostPresentHandoff,
    VRCompositorTimingMode_Explicit_ApplicationPerformsPostPresentHandoff,
}

#[allow(non_camel_case_types, non_snake_case)]
#[derive(Clone, Copy, Debug, PartialEq, Eq, Structural)]
pub struct Compositor_CumulativeStats {
    pub m_nPid: u32,
    pub m_nNumFramePresents: u32,
    pub m_nNumDroppedFrames: u32,
    pub m_nNumReprojectedFrames: u32,
    pub m_nNumFramePresentsOnStartup: u32,
    pub m_nNumDroppedFramesOnStartup: u32,
    pub m_nNumReprojectedFramesOnStartup: u32,
    pub m_nNumLoading: u32,
    pub m_nNumFramePresentsLoading: u32,
    pub m_nNumDroppedFramesLoading: u32,
    pub m_nNumReprojectedFramesLoading: u32,
    pub m_nNumTimedOut: u32,
    pub m_nNumFramePresentsTimedOut: u32,
    pub m_nNumDroppedFramesTimedOut: u32,
    pub m_nNumReprojectedFramesTimedOut: u32,
}

/// Symbol of an EVRCompositorError value, as the runtime's error-name lookup reports it.
pub open spec fn spec_compositor_error_symbol(e: EVRCompositorError) -> Seq<char> {
    match e {
        EVRCompositorError::VRCompositorError_None => "VRCompositorError_None"@,
        EVRCompositorError::VRCompositorError_RequestFailed => "VRCompositorError_RequestFailed"@,
        EVRCompositorError::VRCompositorError_IncompatibleVersion => "VRCompositorError_IncompatibleVersion"@,
        EVRCompositorError::VRCompositorError_DoNotHaveFocus => "VRCompositorError_DoNotHaveFocus"@,
        EVRCompositorError::VRCompositorError_InvalidTexture => "VRCompositorError_InvalidTexture"@,
        EVRCompositorError::VRCompositorError_IsNotSceneApplication => "VRCompositorError_IsNotSceneApplication"@,
        EVRCompositorError::VRCompositorError_TextureIsOnWrongDevice => "VRCompositorError_TextureIsOnWrongDevice"@,
        EVRCompositorError::VRCompositorError_TextureUsesUnsupportedFormat => "VRCompositorError_TextureUsesUnsupportedFormat"@,
        EVRCompositorError::VRCompositorError_SharedTexturesNotSupported => "VRCompositorError_SharedTexturesNotSupported"@,
        EVRCompositorError::VRCompositorError_IndexOutOfRange => "VRCompositorError_IndexOutOfRange"@,
        EVRCompositorError::VRCompositorError_AlreadySubmitted => "VRCompositorError_AlreadySubmitted"@,
        EVRCompositorError::VRCompositorError_InvalidBounds => "VRCompositorError_InvalidBounds"@,
        EVRCompositorError::VRCompositorError_AlreadySet => "VRCompositorError_AlreadySet"@,
    }
}

/// Translates an EVRCompositorError value to its symbol.
pub fn compositor_error_symbol(e: EVRCompositorError) -> (symbol: &'static str)
    ensures
        symbol@ == spec_compositor_error_symbol(e),
{
    match e {
        EVRCompositorError::VRCompositorError_None => "VRCompositorError_None",
        EVRCompositorError::VRCompositorError_RequestFailed => "VRCompositorError_RequestFailed",
        EVRCompositorError::VRCompositorError_IncompatibleVersion => "VRCompositorError_IncompatibleVersion",
        EVRCompositorError::VRCompositorError_DoNotHaveFocus => "VRCompositorError_DoNotHaveFocus",
        EVRCompositorError::VRCompositorError_InvalidTexture => "VRCompositorError_InvalidTexture",
        EVRCompositorError::VRCompositorError_IsNotSceneApplication => "VRCompositorError_IsNotSceneApplication",
        EVRCompositorError::VRCompositorError_TextureIsOnWrongDevice => "VRCompositorError_TextureIsOnWrongDevice",
        EVRCompositorError::VRCompositorError_TextureUsesUnsupportedFormat => "VRCompositorError_TextureUsesUnsupportedFormat",
        EVRCompositorError::VRCompositorError_SharedTexturesNotSupported => "VRCompositorError_SharedTexturesNotSupported",
        EVRCompositorError::VRCompositorError_IndexOutOfRange => "VRCompositorError_IndexOutOfRange",
        EVRCompositorError::VRCompositorError_AlreadySubmitted => "VRCompositorError_AlreadySubmitted",
        EVRCompositorError::VRCompositorError_InvalidBounds => "VRCompositorError_InvalidBounds",
        EVRCompositorError::VRCompositorError_AlreadySet => "VRCompositorError_AlreadySet",
    }
}

} // verus!
