//! Windows engine entry points. This build carries no Windows engine: off
//! Windows every entry point reports that the Windows sandbox is
//! unavailable, so cross-platform callers can still name them; on Windows
//! the legacy preflight decides which policies need workspace ACLs.

use vstd::prelude::*;
use crate::env_map::EnvMap;
use crate::error::SandboxError;
use crate::manager::TargetOs;
use crate::policy::{spec_full_network_access, SandboxPolicy};

verus! {

/// Exit status and captured output of a sandboxed run.
#[derive(Debug)]
pub struct CaptureResult {
    pub exit_code: i32,
    pub stdout: Vec<u8>,
    pub stderr: Vec<u8>,
    pub timed_out: bool,
}

impl Default for CaptureResult {
    fn default() -> (r: Self)
        ensures
            r.exit_code == 0,
            r.stdout@.len() == 0,
            r.stderr@.len() == 0,
            !r.timed_out,
    {
        CaptureResult { exit_code: 0, stdout: Vec::new(), stderr: Vec::new(), timed_out: false }
    }
}

/// The message every Windows entry point fails with on this build.
pub open spec fn windows_only_message() -> Seq<char> {
    "Windows sandbox is only available on Windows"@
}

fn windows_only_error() -> (e: SandboxError)
    ensures
        e matches SandboxError::Other(m) && m@ == windows_only_message(),
{
    SandboxError::Other("Windows sandbox is only available on Windows".to_owned())
}

/// Runs a command under the legacy Windows capture orchestrator; unavailable
/// on this build.
pub fn run_windows_sandbox_capture(
    policy_json_or_preset: &str,
    sandbox_policy_cwd: &str,
    sandbox_home: &str,
    command: Vec<String>,
    cwd: &str,
    env_map: EnvMap,
    timeout_ms: Option<u64>,
    use_private_desktop: bool,
) -> (r: Result<CaptureResult, SandboxError>)
    ensures
        r matches Err(SandboxError::Other(m)) && m@ == windows_only_message(),
{
    Err(windows_only_error())
}

/// The message a Windows host gets when a workspace-write policy asks for
/// the ACL preflight, which this build does not carry.
pub open spec fn acl_preflight_message() -> Seq<char> {
    "the Windows ACL preflight for workspace-write policies is not part of this build"@
}

/// Prepares workspace ACLs ahead of a legacy Windows run on a host running
/// `target_os`. On Windows, a policy other than workspace-write needs no
/// preparation and succeeds at once; a workspace-write policy needs ACLs
/// that this build cannot set, and is refused. Off Windows every call fails
/// as the other Windows entry points do.
pub fn run_windows_sandbox_legacy_preflight(
    target_os: TargetOs,
    sandbox_policy: &SandboxPolicy,
    sandbox_policy_cwd: &str,
    sandbox_home: &str,
    cwd: &str,
    env_map: &EnvMap,
) -> (r: Result<(), SandboxError>)
    ensures
        target_os == TargetOs::Windows && !(sandbox_policy@ is WorkspaceWrite) ==> r is Ok,
        target_os == TargetOs::Windows && sandbox_policy@ is WorkspaceWrite ==> (r matches Err(
            SandboxError::Other(m),
        ) && m@ == acl_preflight_message()),
        target_os != TargetOs::Windows ==> (r matches Err(SandboxError::Other(m)) && m@
            == windows_only_message()),
{
    match target_os {
        TargetOs::Windows => match sandbox_policy {
            SandboxPolicy::WorkspaceWrite { .. } => Err(SandboxError::Other(
                "the Windows ACL preflight for workspace-write policies is not part of this build".to_owned(),
            )),
            _ => Ok(()),
        },
        _ => Err(windows_only_error()),
    }
}

/// Scans for world-writable directories and denies writes to them;
/// unavailable on this build.
pub fn apply_world_writable_scan_and_denies(
    sandbox_home: &str,
    cwd: &str,
    env_map: &EnvMap,
    sandbox_policy: &SandboxPolicy,
    logs_base_dir: Option<&str>,
) -> (r: Result<(), SandboxError>)
    ensures
        r matches Err(SandboxError::Other(m)) && m@ == windows_only_message(),
{
    Err(windows_only_error())
}

/// Whether the network must be blocked for a command under `policy`: always,
/// unless the policy leaves the network fully open.
pub fn should_apply_network_block(policy: &SandboxPolicy) -> (r: bool)
    ensures
        r == !spec_full_network_access(policy@),
{
    !policy.has_full_network_access()
}

} // verus!
