use vstd::prelude::*;

use crate::vr::errors::{spec_init_error_category, EVRInitErrorCategory};
use crate::vr::version::{interface_for_version_key, lookup_interface, InterfaceKind};
use crate::vr::vrtypes::{EVRApplicationType, EVRInitError};

verus! {

/// A borrowed reference to one interface table, as handed out by interface
/// discovery. The handle records which table layout it stands for and the
/// session token under which it was obtained: it is meaningful only while
/// that session is the active one.
#[derive(Clone, Copy, Debug, PartialEq, Eq, Structural)]
pub struct InterfaceHandle {
    pub kind: InterfaceKind,
    pub session: u32,
}

/// Whether initializing under an application type needs display hardware to
/// be attached: the types that submit frames do, the utility ones do not.
pub open spec fn spec_app_type_requires_hmd(app_type: EVRApplicationType) -> bool {
    app_type == EVRApplicationType::VRApplication_Scene || app_type
        == EVRApplicationType::VRApplication_OpenXRScene
}

/// Whether initializing under an application type needs display hardware.
pub fn app_type_requires_hmd(app_type: EVRApplicationType) -> (r: bool)
    ensures
        r == spec_app_type_requires_hmd(app_type),
{
    match app_type {
        EVRApplicationType::VRApplication_Scene
        | EVRApplicationType::VRApplication_OpenXRScene => true,
        _ => false,
    }
}

/// The loader's view of the runtime: the fixed facts of one machine and
/// installation (whether a display is attached, whether the runtime is
/// installed and where) and the per-process session state (whether a session
/// is active and under which token).
///
/// Session tokens count successful initializations, so each session has a
/// token of its own and handles from an earlier session can never be mistaken
/// for current ones.
#[derive(Debug)]
pub struct VrRuntime {
    pub hmd_present: bool,
    pub runtime_installed: bool,
    pub runtime_path: Vec<u8>,
    pub display_on_desktop: bool,
    pub initialized: bool,
    pub token: u32,
}

impl VrRuntime {
    /// The runtime's invariant: the install path fits the sizing protocol's
    /// 32-bit required-size counter, and an active session has a nonzero
    /// token.
    pub open spec fn wf(self) -> bool {
        &&& self.runtime_path@.len() + 1 <= u32::MAX
        &&& self.initialized ==> self.token >= 1
    }

    /// A runtime build as the loader first sees it: configured, but with no
    /// session yet.
    pub fn new(
        hmd_present: bool,
        runtime_installed: bool,
        runtime_path: Vec<u8>,
        display_on_desktop: bool,
    ) -> (rt: VrRuntime)
        requires
            runtime_path@.len() + 1 <= u32::MAX,
        ensures
            rt.wf(),
            rt.hmd_present == hmd_present,
            rt.runtime_installed == runtime_installed,
            rt.runtime_path@ == runtime_path@,
            rt.display_on_desktop == display_on_desktop,
            !rt.initialized,
            rt.token == 0,
    {
        VrRuntime {
            hmd_present,
            runtime_installed,
            runtime_path,
            display_on_desktop,
            initialized: false,
            token: 0,
        }
    }

    /// Whether display hardware is attached. Needs no session and changes
    /// nothing.
    pub fn is_hmd_present(&self) -> (r: bool)
        ensures
            r == self.hmd_present,
    {
        self.hmd_present
    }

    /// Whether the runtime is installed on this machine. Needs no session
    /// and changes nothing.
    pub fn is_runtime_installed(&self) -> (r: bool)
        ensures
            r == self.runtime_installed,
    {
        self.runtime_installed
    }

    /// The buffer size the install path needs under the two-call sizing
    /// protocol: the path's bytes and a trailing terminator.
    pub open spec fn spec_required_path_buffer_size(self) -> u32 {
        (self.runtime_path@.len() + 1) as u32
    }

    /// What a runtime-path query returns for a given buffer size: whether the
    /// buffer sufficed, the bytes handed back, and the required size.
    pub open spec fn spec_get_runtime_path(self, buffer_size: u32) -> (bool, Seq<u8>, u32) {
        let required = self.spec_required_path_buffer_size();
        if buffer_size >= required {
            (true, self.runtime_path@, required)
        } else {
            (false, Seq::<u8>::empty(), required)
        }
    }

    /// Where the runtime is installed, under the two-call sizing protocol:
    /// a call with too small a buffer size fails but still reports the exact
    /// required size; a call with a sufficient one hands the path back whole.
    pub fn get_runtime_path(&self, buffer_size: u32) -> (r: (bool, Vec<u8>, u32))
        requires
            self.wf(),
        ensures
            (r.0, r.1@, r.2) == self.spec_get_runtime_path(buffer_size),
    {
        let required: u32 = (self.runtime_path.len() + 1) as u32;
        if buffer_size >= required {
            let mut path: Vec<u8> = Vec::new();
            let mut i: usize = 0;
            while i < self.runtime_path.len()
                invariant
                    i <= self.runtime_path@.len(),
                    path@ == self.runtime_path@.subrange(0, i as int),
                decreases self.runtime_path@.len() - i,
            {
                path.push(self.runtime_path[i]);
                i += 1;
            }
            assert(path@ =~= self.runtime_path@);
            (true, path, required)
        } else {
            (false, Vec::new(), required)
        }
    }

    /// The initialization outcome this runtime gives under an application
    /// type: failure when the runtime is not installed, or when the type
    /// needs display hardware and none is attached; success otherwise.
    pub open spec fn spec_init_error_for(self, app_type: EVRApplicationType) -> EVRInitError {
        if !self.runtime_installed {
            EVRInitError::VRInitError_Init_InstallationNotFound
        } else if spec_app_type_requires_hmd(app_type) && !self.hmd_present {
            EVRInitError::VRInitError_Init_HmdNotFound
        } else {
            EVRInitError::VRInitError_None
        }
    }

    /// Opens a session with the runtime. On success the returned token is the
    /// session's nonzero token; initializing while a session is already active
    /// keeps that session and returns its token. On failure the error says
    /// why, the token is zero, and the state is unchanged.
    pub fn init_internal2(&mut self, app_type: EVRApplicationType) -> (r: (u32, EVRInitError))
        requires
            old(self).wf(),
            old(self).token < u32::MAX,
        ensures
            final(self).wf(),
            r.1 == old(self).spec_init_error_for(app_type),
            r.1 == EVRInitError::VRInitError_None ==> {
                &&& final(self).initialized
                &&& r.0 == final(self).token
                &&& r.0 >= 1
            },
            r.1 == EVRInitError::VRInitError_None && old(self).initialized ==> final(self).token
                == old(self).token,
            r.1 == EVRInitError::VRInitError_None && !old(self).initialized ==> final(self).token
                == old(self).token + 1,
            r.1 != EVRInitError::VRInitError_None ==> {
                &&& r.0 == 0
                &&& final(self).initialized == old(self).initialized
                &&& final(self).token == old(self).token
            },
            final(self).hmd_present == old(self).hmd_present,
            final(self).runtime_installed == old(self).runtime_installed,
            final(self).runtime_path@ == old(self).runtime_path@,
            final(self).display_on_desktop == old(self).display_on_desktop,
    {
        if !self.runtime_installed {
            (0, EVRInitError::VRInitError_Init_InstallationNotFound)
        } else if app_type_requires_hmd(app_type) && !self.hmd_present {
            (0, EVRInitError::VRInitError_Init_HmdNotFound)
        } else {
            if !self.initialized {
                self.token = self.token + 1;
                self.initialized = true;
            }
            (self.token, EVRInitError::VRInitError_None)
        }
    }

    /// The token of the current session, or zero when none has been opened.
    pub fn get_init_token(&self) -> (r: u32)
        ensures
            r == self.token,
    {
        self.token
    }

    /// Closes the session. Every handle obtained under it is out of contract
    /// from here on; the machine configuration is untouched, so a later
    /// initialization can open a new session.
    pub fn shutdown_internal(&mut self)
        ensures
            !final(self).initialized,
            final(self).token == old(self).token,
            final(self).hmd_present == old(self).hmd_present,
            final(self).runtime_installed == old(self).runtime_installed,
            final(self).runtime_path@ == old(self).runtime_path@,
            final(self).display_on_desktop == old(self).display_on_desktop,
            old(self).wf() ==> final(self).wf(),
    {
        self.initialized = false;
    }

    /// Whether a handle may still be used: only while the session it was
    /// obtained under is the active one.
    pub open spec fn spec_handle_valid(self, handle: InterfaceHandle) -> bool {
        self.initialized && handle.session == self.token
    }

    /// Whether the runtime recognizes a version key. A pure query against
    /// the registry: it needs no session and fetches nothing.
    pub fn is_interface_version_valid(&self, key: &str) -> (r: bool)
        ensures
            r == interface_for_version_key(key@) is Some,
    {
        lookup_interface(key).is_some()
    }

    /// What interface discovery returns for a version key: with no active
    /// session, no handle and the not-initialized error; otherwise a handle
    /// for the table the key resolves to, or no handle and the not-found
    /// error when the key resolves to nothing.
    pub open spec fn spec_get_generic_interface(self, key: Seq<char>) -> (
        Option<InterfaceHandle>,
        EVRInitError,
    ) {
        if !self.initialized {
            (None::<InterfaceHandle>, EVRInitError::VRInitError_Init_NotInitialized)
        } else {
            match interface_for_version_key(key) {
                Some(kind) => (
                    Some(InterfaceHandle { kind, session: self.token }),
                    EVRInitError::VRInitError_None,
                ),
                None => (None::<InterfaceHandle>, EVRInitError::VRInitError_Init_InterfaceNotFound),
            }
        }
    }

    /// Interface discovery: resolves a version key to a handle for the one
    /// table layout that key names. Every handle it returns is valid for the
    /// current session, and it hands out a handle exactly when a session is
    /// active and the key is recognized, with the error saying which of the
    /// two failed.
    pub fn get_generic_interface(&self, key: &str) -> (r: (Option<InterfaceHandle>, EVRInitError))
        ensures
            r == self.spec_get_generic_interface(key@),
            (match r.0 {
                Some(handle) => self.spec_handle_valid(handle) && handle.kind
                    == interface_for_version_key(key@)->Some_0,
                None => r.1 != EVRInitError::VRInitError_None,
            }),
    {
        if !self.initialized {
            (None, EVRInitError::VRInitError_Init_NotInitialized)
        } else {
            match lookup_interface(key) {
                Some(kind) => (
                    Some(InterfaceHandle { kind, session: self.token }),
                    EVRInitError::VRInitError_None,
                ),
                None => (None, EVRInitError::VRInitError_Init_InterfaceNotFound),
            }
        }
    }

    /// Asks the system table whether the headset display is part of the
    /// desktop. Stands for an invocation through the table the handle points
    /// to, so the handle must be a system-table handle that is still valid.
    pub fn system_is_display_on_desktop(&self, handle: InterfaceHandle) -> (r: bool)
        requires
            self.spec_handle_valid(handle),
            handle.kind == InterfaceKind::IVRSystem,
        ensures
            r == self.display_on_desktop,
    {
        self.display_on_desktop
    }
}

/// A version key is recognized exactly when discovery under an active session
/// hands out a handle with no error: the validity probe and actual discovery
/// agree on every key.
pub proof fn lemma_interface_version_valid_iff_discovery_succeeds(rt: VrRuntime, key: Seq<char>)
    requires
        rt.initialized,
    ensures
        interface_for_version_key(key) is Some <==> (rt.spec_get_generic_interface(key).0 is Some
            && rt.spec_get_generic_interface(key).1 == EVRInitError::VRInitError_None),
{
}

/// Discovery with no active session yields no handle and an error from the
/// initialization category, for every key.
pub proof fn lemma_discovery_before_init_fails(rt: VrRuntime, key: Seq<char>)
    requires
        !rt.initialized,
    ensures
        rt.spec_get_generic_interface(key).0 is None,
        rt.spec_get_generic_interface(key).1 != EVRInitError::VRInitError_None,
        spec_init_error_category(rt.spec_get_generic_interface(key).1)
            == EVRInitErrorCategory::Category_Init,
{
}

/// A handle is valid only in the session it was obtained under: in any state
/// with no active session, or with a different session token, it is out of
/// contract.
pub proof fn lemma_handle_valid_only_in_own_session(rt: VrRuntime, handle: InterfaceHandle)
    ensures
        !rt.initialized ==> !rt.spec_handle_valid(handle),
        handle.session != rt.token ==> !rt.spec_handle_valid(handle),
{
}

/// Handles do not survive a shutdown and re-initialization: a state whose
/// session token was issued later than a handle's never treats that handle
/// as valid.
pub proof fn lemma_old_session_handles_invalid(
    before: VrRuntime,
    after: VrRuntime,
    handle: InterfaceHandle,
)
    requires
        before.spec_handle_valid(handle),
        after.token > before.token,
    ensures
        !after.spec_handle_valid(handle),
{
}

/// The two-call buffer sizing protocol round-trips: a query with a zero-sized
/// buffer fails and reports the exact required size, and a second query with
/// any buffer at least that large succeeds and hands back the whole path,
/// which fits the reported size exactly.
pub proof fn lemma_buffer_sizing_round_trip(rt: VrRuntime, buffer_size: u32)
    requires
        rt.wf(),
        buffer_size >= rt.spec_get_runtime_path(0).2,
    ensures
        !rt.spec_get_runtime_path(0).0,
        rt.spec_get_runtime_path(0).2 == rt.spec_required_path_buffer_size(),
        rt.spec_get_runtime_path(buffer_size).0,
        rt.spec_get_runtime_path(buffer_size).1 == rt.runtime_path@,
        rt.spec_get_runtime_path(buffer_size).1.len() + 1 == rt.spec_get_runtime_path(0).2,
{
}

} // verus!
