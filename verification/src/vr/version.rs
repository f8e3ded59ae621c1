use vstd::prelude::*;

verus! {

/// Version key naming the exact layout of the system interface table.
pub const IVRSYSTEM_VERSION: &'static str = "IVRSystem_022";

/// Version key naming the exact layout of the applications interface table.
pub const IVRAPPLICATIONS_VERSION: &'static str = "IVRApplications_007";

/// Version key naming the exact layout of the settings interface table.
pub const IVRSETTINGS_VERSION: &'static str = "IVRSettings_003";

/// Version key naming the exact layout of the chaperone interface table.
pub const IVRCHAPERONE_VERSION: &'static str = "IVRChaperone_004";

/// Version key naming the exact layout of the chaperone setup interface table.
pub const IVRCHAPERONE_SETUP_VERSION: &'static str = "IVRChaperoneSetup_006";

/// Version key naming the exact layout of the compositor interface table.
pub const IVRCOMPOSITOR_VERSION: &'static str = "IVRCompositor_027";

/// Version key naming the exact layout of the spatial anchors interface table.
pub const IVRSPATIALANCHORS_VERSION: &'static str = "IVRSpatialAnchors_001";

/// Version key naming the exact layout of the debug interface table.
pub const IVRDEBUG_VERSION: &'static str = "IVRDebug_001";

/// The interface tables this crate declares support for: one variant per
/// version key in the registry. Resolving a version key yields the matching
/// variant, so a caller can only ever pair a table with the layout its key
/// names.
#[allow(non_camel_case_types)]
#[derive(Clone, Copy, Debug, PartialEq, Eq, Structural)]
pub enum InterfaceKind {
    IVRSystem,
    IVRApplications,
    IVRSettings,
    IVRChaperone,
    IVRChaperoneSetup,
    IVRCompositor,
    IVRSpatialAnchors,
    IVRDebug,
}

/// The registry: which interface table, if any, a version key resolves to.
/// A key differing from every registered key in as little as its version
/// number resolves to nothing.
pub open spec fn interface_for_version_key(key: Seq<char>) -> Option<InterfaceKind> {
    if key == IVRSYSTEM_VERSION@ {
        Some(InterfaceKind::IVRSystem)
    } else if key == IVRAPPLICATIONS_VERSION@ {
        Some(InterfaceKind::IVRApplications)
    } else if key == IVRSETTINGS_VERSION@ {
        Some(InterfaceKind::IVRSettings)
    } else if key == IVRCHAPERONE_VERSION@ {
        Some(InterfaceKind::IVRChaperone)
    } else if key == IVRCHAPERONE_SETUP_VERSION@ {
        Some(InterfaceKind::IVRChaperoneSetup)
    } else if key == IVRCOMPOSITOR_VERSION@ {
        Some(InterfaceKind::IVRCompositor)
    } else if key == IVRSPATIALANCHORS_VERSION@ {
        Some(InterfaceKind::IVRSpatialAnchors)
    } else if key == IVRDEBUG_VERSION@ {
        Some(InterfaceKind::IVRDebug)
    } else {
        None
    }
}

fn str_eq(a: &str, b: &str) -> (r: bool)
    ensures
        r == (a@ == b@),
{
    let a_owned: String = a.to_owned();
    let b_owned: String = b.to_owned();
    a_owned == b_owned
}

/// Resolves a version key against the registry.
pub fn lookup_interface(key: &str) -> (r: Option<InterfaceKind>)
    ensures
        r == interface_for_version_key(key@),
{
    if str_eq(key, IVRSYSTEM_VERSION) {
        Some(InterfaceKind::IVRSystem)
    } else if str_eq(key, IVRAPPLICATIONS_VERSION) {
        Some(InterfaceKind::IVRApplications)
    } else if str_eq(key, IVRSETTINGS_VERSION) {
        Some(InterfaceKind::IVRSettings)
    } else if str_eq(key, IVRCHAPERONE_VERSION) {
        Some(InterfaceKind::IVRChaperone)
    } else if str_eq(key, IVRCHAPERONE_SETUP_VERSION) {
        Some(InterfaceKind::IVRChaperoneSetup)
    } else if str_eq(key, IVRCOMPOSITOR_VERSION) {
        Some(InterfaceKind::IVRCompositor)
    } else if str_eq(key, IVRSPATIALANCHORS_VERSION) {
        Some(InterfaceKind::IVRSpatialAnchors)
    } else if str_eq(key, IVRDEBUG_VERSION) {
        Some(InterfaceKind::IVRDebug)
    } else {
        None
    }
}

/// Each registered version key resolves to its own interface table, and no
/// two registered keys resolve to the same one.
pub proof fn lemma_registry_keys_recognized()
    ensures
        interface_for_version_key(IVRSYSTEM_VERSION@) == Some(InterfaceKind::IVRSystem),
        interface_for_version_key(IVRAPPLICATIONS_VERSION@) == Some(InterfaceKind::IVRApplications),
        interface_for_version_key(IVRSETTINGS_VERSION@) == Some(InterfaceKind::IVRSettings),
        interface_for_version_key(IVRCHAPERONE_VERSION@) == Some(InterfaceKind::IVRChaperone),
        interface_for_version_key(IVRCHAPERONE_SETUP_VERSION@) == Some(
            InterfaceKind::IVRChaperoneSetup,
        ),
        interface_for_version_key(IVRCOMPOSITOR_VERSION@) == Some(InterfaceKind::IVRCompositor),
        interface_for_version_key(IVRSPATIALANCHORS_VERSION@) == Some(
            InterfaceKind::IVRSpatialAnchors,
        ),
        interface_for_version_key(IVRDEBUG_VERSION@) == Some(InterfaceKind::IVRDebug),
{
    reveal_strlit("IVRSystem_022");
    reveal_strlit("IVRApplications_007");
    reveal_strlit("IVRSettings_003");
    reveal_strlit("IVRChaperone_004");
    reveal_strlit("IVRChaperoneSetup_006");
    reveal_strlit("IVRCompositor_027");
    reveal_strlit("IVRSpatialAnchors_001");
    reveal_strlit("IVRDebug_001");
    // The registered keys differ pairwise, almost always already in length;
    // the two of equal length differ in their interface name.
    assert(IVRSYSTEM_VERSION@.len() == 13);
    assert(IVRAPPLICATIONS_VERSION@.len() == 19);
    assert(IVRSETTINGS_VERSION@.len() == 15);
    assert(IVRCHAPERONE_VERSION@.len() == 16);
    assert(IVRCHAPERONE_SETUP_VERSION@.len() == 21);
    assert(IVRCOMPOSITOR_VERSION@.len() == 17);
    assert(IVRSPATIALANCHORS_VERSION@.len() == 21);
    assert(IVRDEBUG_VERSION@.len() == 12);
    assert(IVRCHAPERONE_SETUP_VERSION@[3] == 'C');
    assert(IVRSPATIALANCHORS_VERSION@[3] == 'S');
}

} // verus!
