//! Cross-platform sandbox for executing untrusted commands: the policy
//! model, lexical path handling, environment injection, and the
//! command-line construction that wraps a program in a platform sandbox.
//!
//! A typical caller builds a [`PermissionProfile`], a [`SandboxCommand`]
//! and a [`SandboxTransformRequest`], and asks a [`SandboxManager`] to
//! transform it into a [`SandboxExecRequest`] holding the argv to spawn.

use vstd::prelude::*;

pub mod env_map;
pub mod error;
pub mod linux;
pub mod manager;
pub mod network_proxy;
pub mod otel;
pub mod path;
pub mod path_model;
pub mod policy;
pub mod policy_transforms;
pub mod text;
pub mod windows;
pub mod windows_path;

pub use env_map::EnvMap;
pub use error::{SandboxError, SandboxTransformError};
pub use linux::{BwrapHostFacts, RATTLER_LINUX_SANDBOX_ARG0};
pub use manager::{
    compatibility_sandbox_policy_for_permission_profile, get_platform_sandbox, EngineInputs, HostPaths,
    MACOS_PATH_TO_SEATBELT_EXECUTABLE,
    SandboxCommand, SandboxExecRequest, SandboxManager, SandboxTransformRequest, SandboxType,
    SandboxablePreference, TargetOs,
};
pub use network_proxy::NetworkProxy;
pub use path::AbsolutePathBuf;
pub use policy::{
    AdditionalPermissionProfile, FileSystemAccessMode, FileSystemPath, FileSystemSandboxEntry,
    FileSystemSandboxKind, FileSystemSandboxPolicy, FileSystemSpecialPath, NetworkAccess,
    NetworkSandboxPolicy, PermissionProfile, SandboxPolicy, WindowsSandboxLevel,
};

verus! {

/// A warning about the system bubblewrap for a host running `target_os`:
/// on Linux, one when `bwrap` is missing from `PATH`, fails to run, or the
/// host is WSL1 (see [`linux::bwrap_warning_message`]); on every other
/// platform, none. The warning does not depend on `permissions`.
pub fn system_bwrap_warning(
    target_os: TargetOs,
    permissions: &PermissionProfile,
    host: BwrapHostFacts,
) -> (r: Option<String>)
    ensures
        target_os == TargetOs::Linux ==> (r is Some <==> (host.is_wsl1 || !host.bwrap_found
            || !host.bwrap_works)),
        target_os == TargetOs::Linux ==> match (r, linux::bwrap_warning_message(host)) {
            (Some(m), Some(s)) => m@ == s,
            (None, None) => true,
            _ => false,
        },
        target_os != TargetOs::Linux ==> r is None,
{
    match target_os {
        TargetOs::Linux => linux::linux_bwrap_warning(host),
        _ => None,
    }
}

} // verus!
