//! The permissions the platform asks for, and the decisions taken while
//! asking: which are granted outright, how a refusal ends the requests,
//! and how screen capture is obtained on Linux.

use vstd::prelude::*;
use crate::kvm_core::error::{KvmError, KvmResult};
use crate::text::{append_str, string_from};

verus! {

/// The permissions the platform may need.
#[derive(Debug, Clone, Copy, PartialEq, Eq, Structural, Hash)]
pub enum Permission {
    /// Capturing the screen.
    ScreenCapture,
    /// Reading input devices.
    InputDevices,
    /// Using the network.
    NetworkAccess,
    /// Using the file system.
    FileSystemAccess,
    /// Installing a system service.
    SystemService,
}

/// What a permission request gave.
#[derive(Debug, Clone, Copy, PartialEq, Eq, Structural)]
pub enum PermissionStatus {
    Granted,
    Denied,
    Pending,
    NotApplicable,
}

/// The name of a permission, as `Debug` writes it.
pub open spec fn permission_name(p: Permission) -> Seq<char> {
    match p {
        Permission::ScreenCapture => "ScreenCapture"@,
        Permission::InputDevices => "InputDevices"@,
        Permission::NetworkAccess => "NetworkAccess"@,
        Permission::FileSystemAccess => "FileSystemAccess"@,
        Permission::SystemService => "SystemService"@,
    }
}

/// The name of a permission, as `Debug` writes it.
pub fn permission_name_text(p: Permission) -> (r: String)
    ensures
        r@ == permission_name(p),
{
    match p {
        Permission::ScreenCapture => string_from("ScreenCapture"),
        Permission::InputDevices => string_from("InputDevices"),
        Permission::NetworkAccess => string_from("NetworkAccess"),
        Permission::FileSystemAccess => string_from("FileSystemAccess"),
        Permission::SystemService => string_from("SystemService"),
    }
}

/// What asking for a permission gives without the platform: input
/// devices, the network and the file system are granted; a system service
/// is granted only to root; screen capture needs the platform (`None`).
pub fn request_permission_locally(permission: Permission, running_as_root: bool) -> (r: Option<PermissionStatus>)
    ensures
        r == match permission {
            Permission::ScreenCapture => None,
            Permission::SystemService => Some(
                if running_as_root {
                    PermissionStatus::Granted
                } else {
                    PermissionStatus::Denied
                },
            ),
            _ => Some(PermissionStatus::Granted),
        },
{
    match permission {
        Permission::ScreenCapture => None,
        Permission::SystemService => {
            if running_as_root {
                Some(PermissionStatus::Granted)
            } else {
                Some(PermissionStatus::Denied)
            }
        },
        _ => Some(PermissionStatus::Granted),
    }
}

/// The permissions every platform requires, in the order they are asked
/// for: screen capture, input devices, the network.
pub open spec fn required_permissions_list() -> Seq<Permission> {
    seq![Permission::ScreenCapture, Permission::InputDevices, Permission::NetworkAccess]
}

/// The permissions granted so far, and those the platform requires.
pub struct PermissionManager {
    granted_permissions: Vec<Permission>,
    required_permissions: Vec<Permission>,
}

impl PermissionManager {
    /// The permissions granted.
    pub closed spec fn granted(&self) -> Set<Permission> {
        self.granted_permissions@.to_set()
    }

    /// The permissions required, in the order they are asked for.
    pub closed spec fn required(&self) -> Seq<Permission> {
        self.required_permissions@
    }

    /// The required permissions never change: screen capture, input
    /// devices and the network.
    #[verifier::type_invariant]
    spec fn required_fixed(&self) -> bool {
        self.required_permissions@ == required_permissions_list()
    }

    /// None granted; screen capture, input devices and the network
    /// required.
    pub fn new() -> (r: Self)
        ensures
            r.granted() == Set::<Permission>::empty(),
            r.required() == required_permissions_list(),
    {
        let mut required: Vec<Permission> = Vec::new();
        required.push(Permission::ScreenCapture);
        required.push(Permission::InputDevices);
        required.push(Permission::NetworkAccess);
        assert(required@ =~= required_permissions_list());
        let r = PermissionManager { granted_permissions: Vec::new(), required_permissions: required };
        assert(r.granted() =~= Set::<Permission>::empty());
        assert(r.required() =~= seq![Permission::ScreenCapture, Permission::InputDevices, Permission::NetworkAccess]);
        r
    }

    /// The permissions required, in the order they are asked for.
    pub fn required_permissions(&self) -> (r: &Vec<Permission>)
        ensures
            r@ == self.required(),
            r@ == required_permissions_list(),
    {
        proof {
            use_type_invariant(self);
        }
        &self.required_permissions
    }

    /// Whether the permission is granted.
    pub fn is_granted(&self, permission: &Permission) -> (r: bool)
        ensures
            r == self.granted().contains(*permission),
    {
        let mut i: usize = 0;
        while i < self.granted_permissions.len()
            invariant
                i <= self.granted_permissions.len(),
                forall|j: int| 0 <= j < i ==> self.granted_permissions@[j] != *permission,
            decreases self.granted_permissions.len() - i,
        {
            if self.granted_permissions[i] == *permission {
                assert(self.granted_permissions@.contains(*permission));
                return true;
            }
            i += 1;
        }
        false
    }

    /// Whether every required permission is granted.
    pub fn all_granted(&self) -> (r: bool)
        ensures
            r == forall|i: int| 0 <= i < self.required().len() ==> self.granted().contains(#[trigger] self.required()[i]),
            r == (self.granted().contains(Permission::ScreenCapture) && self.granted().contains(Permission::InputDevices)
                && self.granted().contains(Permission::NetworkAccess)),
    {
        proof {
            use_type_invariant(self);
            assert(self.required()[0] == Permission::ScreenCapture);
            assert(self.required()[1] == Permission::InputDevices);
            assert(self.required()[2] == Permission::NetworkAccess);
        }
        let mut i: usize = 0;
        while i < self.required_permissions.len()
            invariant
                i <= self.required_permissions.len(),
                forall|j: int| 0 <= j < i ==> self.granted().contains(#[trigger] self.required()[j]),
                self.required() == required_permissions_list(),
            decreases self.required_permissions.len() - i,
        {
            if !self.is_granted(&self.required_permissions[i]) {
                assert(!self.granted().contains(self.required()[i as int]));
                return false;
            }
            i += 1;
        }
        true
    }

    /// Takes in the answer to a request for `permission` while asking for
    /// all required permissions. A grant is recorded and the requests go
    /// on; a denial ends them with a platform error that names the
    /// permission; pending and not-applicable answers go on; a failed
    /// request ends them with its error.
    pub fn record_request(&mut self, permission: Permission, answer: KvmResult<PermissionStatus>) -> (r: KvmResult<()>)
        ensures
            final(self).required() == old(self).required(),
            match answer {
                Ok(PermissionStatus::Granted) => r is Ok && final(self).granted() == old(self).granted().insert(permission),
                Ok(PermissionStatus::Denied) => final(self).granted() == old(self).granted() && (r matches Err(
                    KvmError::Platform(m),
                ) && m@ == "Required permission denied: "@ + permission_name(permission)),
                Ok(_) => r is Ok && final(self).granted() == old(self).granted(),
                Err(e) => final(self).granted() == old(self).granted() && r == Err::<(), KvmError>(e),
            },
    {
        proof {
            use_type_invariant(&*self);
        }
        match answer {
            Ok(PermissionStatus::Granted) => {
                let ghost before = self.granted_permissions@;
                let mut granted = self.granted_permissions.clone();
                assert(granted@ =~= self.granted_permissions@);
                granted.push(permission);
                self.granted_permissions = granted;
                let ghost after = self.granted_permissions@;
                assert forall|a: Permission| after.contains(a) <==> (before.contains(a) || a == permission) by {
                    if before.contains(a) {
                        let i = choose|i: int| 0 <= i < before.len() && before[i] == a;
                        assert(after[i] == a);
                    }
                    if a == permission {
                        assert(after[after.len() - 1] == a);
                    }
                    if after.contains(a) {
                        let i = choose|i: int| 0 <= i < after.len() && after[i] == a;
                        if i < before.len() {
                            assert(before[i] == a);
                        }
                    }
                }
                assert(self.granted() =~= old(self).granted().insert(permission));
                Ok(())
            },
            Ok(PermissionStatus::Denied) => {
                let mut m = string_from("Required permission denied: ");
                let name = permission_name_text(permission);
                append_str(&mut m, name.as_str());
                Err(KvmError::Platform(m))
            },
            Ok(_) => Ok(()),
            Err(e) => Err(e),
        }
    }
}

/// Asking for screen capture on Linux begins by checking for the desktop
/// portal: without one, screen capture does not apply; with one, the
/// portal is asked (`None`).
pub fn screen_capture_portal_check(portal_available: bool) -> (r: Option<PermissionStatus>)
    ensures
        r == if portal_available {
            None::<PermissionStatus>
        } else {
            Some(PermissionStatus::NotApplicable)
        },
{
    if portal_available {
        None
    } else {
        Some(PermissionStatus::NotApplicable)
    }
}

/// The portal's answer: a grant grants screen capture; otherwise direct
/// access is tried (`None`).
pub fn screen_capture_after_portal(portal: &KvmResult<()>) -> (r: Option<PermissionStatus>)
    ensures
        r == match portal {
            Ok(()) => Some(PermissionStatus::Granted),
            Err(_) => None::<PermissionStatus>,
        },
{
    match portal {
        Ok(()) => Some(PermissionStatus::Granted),
        Err(_) => None,
    }
}

/// The outcome of trying direct access: granted where it works, else
/// denied.
pub fn screen_capture_after_direct(direct: &KvmResult<()>) -> (r: PermissionStatus)
    ensures
        r == match direct {
            Ok(()) => PermissionStatus::Granted,
            Err(_) => PermissionStatus::Denied,
        },
{
    match direct {
        Ok(()) => PermissionStatus::Granted,
        Err(_) => PermissionStatus::Denied,
    }
}

/// Whether the screen can be captured directly, given the session type
/// and whether a display is set: not in a Wayland session; otherwise only
/// with an X display.
pub fn try_direct_access(session_type: Option<String>, display_set: bool) -> (r: KvmResult<()>)
    ensures
        (session_type matches Some(t) && t@ == "wayland"@) ==> (r matches Err(KvmError::Platform(m))
            && m@ == "Direct Wayland access not configured"@),
        !(session_type matches Some(t) && t@ == "wayland"@) ==> if display_set {
            r is Ok
        } else {
            r matches Err(KvmError::Platform(m)) && m@ == "No display server available"@
        },
{
    let wayland = string_from("wayland");
    let is_wayland = match &session_type {
        Some(t) => *t == wayland,
        None => false,
    };
    if is_wayland {
        return Err(KvmError::Platform(string_from("Direct Wayland access not configured")));
    }
    if display_set {
        Ok(())
    } else {
        Err(KvmError::Platform(string_from("No display server available")))
    }
}

/// The outcome of asking the desktop portal for a screencast session:
/// the command could not run (its error), or it ran (whether it
/// succeeded, and what it wrote to standard error).
pub fn screencast_portal_outcome(run: Result<(bool, String), String>) -> (r: KvmResult<()>)
    ensures
        match run {
            Err(e) => r matches Err(KvmError::Platform(m)) && m@ == "Portal request failed: "@ + e@,
            Ok((true, _)) => r is Ok,
            Ok((false, stderr)) => r matches Err(KvmError::Platform(m)) && m@ == "Portal denied access: "@
                + stderr@,
        },
{
    match run {
        Err(e) => {
            let mut m = string_from("Portal request failed: ");
            append_str(&mut m, e.as_str());
            Err(KvmError::Platform(m))
        },
        Ok((true, _)) => Ok(()),
        Ok((false, stderr)) => {
            let mut m = string_from("Portal denied access: ");
            append_str(&mut m, stderr.as_str());
            Err(KvmError::Platform(m))
        },
    }
}

} // verus!
