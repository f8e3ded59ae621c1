use vstd::prelude::*;

verus! {

#[allow(non_camel_case_types)]
#[derive(Clone, Copy, Debug, PartialEq, Eq, Structural)]
pub enum EChaperoneConfigFile {
    EChaperoneConfigFile_Live,
    EChaperoneConfigFile_Temp,
}

#[allow(non_camel_case_types)]
#[derive(Clone, Copy, Debug, PartialEq, Eq, Structural)]
pub enum EChaperoneImportFlags {
    EChaperoneImport_BoundsOnly,
}

} // verus!
