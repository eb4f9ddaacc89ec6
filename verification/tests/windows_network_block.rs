use rattler_sandbox::windows::{
    apply_world_writable_scan_and_denies, run_windows_sandbox_capture,
    run_windows_sandbox_legacy_preflight,
};
use rattler_sandbox::{EnvMap, SandboxError, TargetOs};
use rattler_sandbox::windows::should_apply_network_block;
use rattler_sandbox::SandboxPolicy;

fn workspace_policy(network_access: bool) -> SandboxPolicy {
    SandboxPolicy::WorkspaceWrite {
        writable_roots: Vec::new(),
        network_access,
        exclude_tmpdir_env_var: false,
        exclude_slash_tmp: false,
    }
}

#[test]
fn applies_network_block_when_access_is_disabled() {
    assert!(should_apply_network_block(&workspace_policy(false)));
}

#[test]
fn skips_network_block_when_access_is_allowed() {
    assert!(!should_apply_network_block(&workspace_policy(true)));
}

#[test]
fn applies_network_block_for_read_only() {
    assert!(should_apply_network_block(&SandboxPolicy::new_read_only_policy()));
}

#[test]
fn full_access_is_not_blocked() {
    assert!(!should_apply_network_block(&SandboxPolicy::DangerFullAccess));
}

#[test]
fn external_sandbox_block_follows_network_access() {
    assert!(should_apply_network_block(&SandboxPolicy::ExternalSandbox {
        network_access: rattler_sandbox::NetworkAccess::Restricted,
    }));
    assert!(!should_apply_network_block(&SandboxPolicy::ExternalSandbox {
        network_access: rattler_sandbox::NetworkAccess::Enabled,
    }));
}

#[test]
fn windows_entry_points_report_unavailable() {
    let msg = "Windows sandbox is only available on Windows";
    match run_windows_sandbox_capture("read-only", "/w", "/h", vec!["ls".to_string()], "/w", EnvMap::new(), None, false) {
        Err(SandboxError::Other(m)) => assert_eq!(m, msg),
        other => panic!("unexpected: {:?}", other.is_ok()),
    }
    let policy = SandboxPolicy::new_read_only_policy();
    match run_windows_sandbox_legacy_preflight(TargetOs::Linux, &policy, "/w", "/h", "/w", &EnvMap::new()) {
        Err(SandboxError::Other(m)) => assert_eq!(m, msg),
        _ => panic!("unexpected"),
    }
    match apply_world_writable_scan_and_denies("/h", "/w", &EnvMap::new(), &policy, None) {
        Err(SandboxError::Other(m)) => assert_eq!(m, msg),
        _ => panic!("unexpected"),
    }
}

#[test]
fn legacy_preflight_on_windows_skips_non_workspace_policies() {
    let env = EnvMap::new();
    let read_only = SandboxPolicy::new_read_only_policy();
    assert!(run_windows_sandbox_legacy_preflight(TargetOs::Windows, &read_only, "/w", "/h", "/w", &env).is_ok());
    assert!(run_windows_sandbox_legacy_preflight(TargetOs::Windows, &SandboxPolicy::DangerFullAccess, "/w", "/h", "/w", &env).is_ok());
    let ws = SandboxPolicy::WorkspaceWrite {
        writable_roots: vec![],
        network_access: false,
        exclude_tmpdir_env_var: false,
        exclude_slash_tmp: false,
    };
    match run_windows_sandbox_legacy_preflight(TargetOs::Windows, &ws, "/w", "/h", "/w", &env) {
        Err(SandboxError::Other(m)) => assert!(m.contains("ACL preflight")),
        _ => panic!("unexpected"),
    }
}
