use vstd::prelude::*;

verus! {

#[allow(non_camel_case_types)]
#[derive(Clone, Copy, Debug, PartialEq, Eq, Structural)]
pub enum EVRSettingsError {
    VRSettingsError_None,
    VRSettingsError_IPCFailed,
    VRSettingsError_WriteFailed,
    VRSettingsError_ReadFailed,
    VRSettingsError_JsonParseFailed,
    VRSettingsError_UnsetSettingHasNoDefault,
}

pub const MAX_SETTINGS_KEY_LENGTH: usize = 128;

/// Symbol of an EVRSettingsError value, as the runtime's error-name lookup reports it.
pub open spec fn spec_settings_error_symbol(e: EVRSettingsError) -> Seq<char> {
    match e {
        EVRSettingsError::VRSettingsError_None => "VRSettingsError_None"@,
        EVRSettingsError::VRSettingsError_IPCFailed => "VRSettingsError_IPCFailed"@,
        EVRSettingsError::VRSettingsError_WriteFailed => "VRSettingsError_WriteFailed"@,
        EVRSettingsError::VRSettingsError_ReadFailed => "VRSettingsError_ReadFailed"@,
        EVRSettingsError::VRSettingsError_JsonParseFailed => "VRSettingsError_JsonParseFailed"@,
        EVRSettingsError::VRSettingsError_UnsetSettingHasNoDefault => "VRSettingsError_UnsetSettingHasNoDefault"@,
    }
}

/// Translates an EVRSettingsError value to its symbol.
pub fn settings_error_symbol(e: EVRSettingsError) -> (symbol: &'static str)
    ensures
        symbol@ == spec_settings_error_symbol(e),
{
    match e {
        EVRSettingsError::VRSettingsError_None => "VRSettingsError_None",
        EVRSettingsError::VRSettingsError_IPCFailed => "VRSettingsError_IPCFailed",
        EVRSettingsError::VRSettingsError_WriteFailed => "VRSettingsError_WriteFailed",
        EVRSettingsError::VRSettingsError_ReadFailed => "VRSettingsError_ReadFailed",
        EVRSettingsError::VRSettingsError_JsonParseFailed => "VRSettingsError_JsonParseFailed",
        EVRSettingsError::VRSettingsError_UnsetSettingHasNoDefault => "VRSettingsError_UnsetSettingHasNoDefault",
    }
}

} // verus!
