use vstd::prelude::*;

verus! {

#[allow(non_camel_case_types)]
#[derive(Clone, Copy, Debug, PartialEq, Eq, Structural)]
pub enum ChaperoneCalibrationState {
    ChaperoneCalibrationState_OK,
    ChaperoneCalibrationState_Warning,
    ChaperoneCalibrationState_Warning_BaseStationMayHaveMoved,
    ChaperoneCalibrationState_Warning_BaseStationRemoved,
    ChaperoneCalibrationState_Warning_SeatedBoundsInvalid,
    ChaperoneCalibrationState_Error,
    ChaperoneCalibrationState_Error_BaseStationUninitialized,
    ChaperoneCalibrationState_Error_BaseStationConflict,
    ChaperoneCalibrationState_Error_PlayAreaInvalid,
    ChaperoneCalibrationState_Error_CollisionBoundsInvalid,
}

} // verus!
