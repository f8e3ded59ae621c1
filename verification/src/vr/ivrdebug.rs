use vstd::prelude::*;

verus! {

#[allow(non_camel_case_types)]
#[derive(Clone, Copy, Debug, PartialEq, Eq, Structural)]
pub enum EVRDebugError {
    VRDebugError_Success,
    VRDebugError_BadParameter,
}

pub type VrProfilerEventHandle = u64;

} // verus!
