use rattler_sandbox::windows::should_apply_network_block;
use rattler_sandbox::otel::{OtelExporter, OtelProvider, OtelSettings};
use rattler_sandbox::linux::{
    allow_network_for_proxy, create_linux_sandbox_command_args,
    create_linux_sandbox_command_args_for_permission_profile,
};
use rattler_sandbox::manager::{
    compatibility_workspace_write_policy, ensure_linux_bubblewrap_is_supported,
    linux_sandbox_arg0_override,
};
use rattler_sandbox::path::test_absolute;
use rattler_sandbox::policy_transforms::{
    effective_permission_profile, permission_profile_to_legacy_sandbox_policy,
    should_require_platform_sandbox,
};
use rattler_sandbox::{
    compatibility_sandbox_policy_for_permission_profile, get_platform_sandbox, system_bwrap_warning,
    BwrapHostFacts, EngineInputs, MACOS_PATH_TO_SEATBELT_EXECUTABLE,
    AdditionalPermissionProfile, EnvMap, FileSystemAccessMode, FileSystemPath,
    FileSystemSandboxEntry, FileSystemSandboxKind, FileSystemSandboxPolicy, FileSystemSpecialPath,
    HostPaths, NetworkProxy, NetworkSandboxPolicy, PermissionProfile, SandboxCommand,
    SandboxManager, SandboxPolicy, SandboxTransformError, SandboxTransformRequest, SandboxType,
    SandboxablePreference, TargetOs, WindowsSandboxLevel,
};

fn command(program: &str, args: &[&str]) -> SandboxCommand {
    SandboxCommand {
        program: program.to_string(),
        args: args.iter().map(|s| s.to_string()).collect(),
        cwd: test_absolute("/work"),
        env: EnvMap::new(),
        additional_permissions: None,
    }
}

fn request<'a>(
    cmd: SandboxCommand,
    perms: &'a PermissionProfile,
    sandbox: SandboxType,
    exe: Option<&'a str>,
) -> SandboxTransformRequest<'a> {
    SandboxTransformRequest {
        command: cmd,
        permissions: perms,
        sandbox,
        enforce_managed_network: false,
        network: None,
        sandbox_policy_cwd: "/work",
        linux_sandbox_exe: exe,
        use_legacy_landlock: false,
        windows_sandbox_level: WindowsSandboxLevel::Disabled,
        windows_sandbox_private_desktop: false,
    }
}

#[test]
fn metric_tags() {
    assert_eq!(SandboxType::NoSandbox.as_metric_tag(), "none");
    assert_eq!(SandboxType::MacosSeatbelt.as_metric_tag(), "seatbelt");
    assert_eq!(SandboxType::LinuxSeccomp.as_metric_tag(), "seccomp");
    assert_eq!(SandboxType::WindowsRestrictedToken.as_metric_tag(), "windows_sandbox");
}

#[test]
fn platform_sandbox_per_target() {
    assert_eq!(get_platform_sandbox(TargetOs::Linux, false), Some(SandboxType::LinuxSeccomp));
    assert_eq!(get_platform_sandbox(TargetOs::MacOs, false), Some(SandboxType::MacosSeatbelt));
    assert_eq!(get_platform_sandbox(TargetOs::Windows, false), None);
    assert_eq!(get_platform_sandbox(TargetOs::Windows, true), Some(SandboxType::WindowsRestrictedToken));
    assert_eq!(get_platform_sandbox(TargetOs::Other, true), None);
}

#[test]
fn select_initial_follows_preference_and_policy() {
    let mgr = SandboxManager::new(TargetOs::Linux);
    let open = PermissionProfile::unrestricted();
    let ro = PermissionProfile::read_only();
    let lvl = WindowsSandboxLevel::Disabled;
    assert_eq!(mgr.select_initial(&ro.file_system, ro.network, SandboxablePreference::Forbid, lvl, true), SandboxType::NoSandbox);
    assert_eq!(mgr.select_initial(&open.file_system, open.network, SandboxablePreference::Require, lvl, false), SandboxType::LinuxSeccomp);
    assert_eq!(mgr.select_initial(&open.file_system, open.network, SandboxablePreference::Auto, lvl, false), SandboxType::NoSandbox);
    assert_eq!(mgr.select_initial(&open.file_system, open.network, SandboxablePreference::Auto, lvl, true), SandboxType::LinuxSeccomp);
    assert_eq!(mgr.select_initial(&ro.file_system, ro.network, SandboxablePreference::Auto, lvl, false), SandboxType::LinuxSeccomp);
    let win = SandboxManager::new(TargetOs::Windows);
    assert_eq!(win.select_initial(&ro.file_system, ro.network, SandboxablePreference::Require, lvl, false), SandboxType::NoSandbox);
    assert_eq!(win.select_initial(&ro.file_system, ro.network, SandboxablePreference::Require, WindowsSandboxLevel::RestrictedToken, false), SandboxType::WindowsRestrictedToken);
}

#[test]
fn requirement_of_platform_sandbox() {
    let open = PermissionProfile::unrestricted();
    assert!(!should_require_platform_sandbox(&open.file_system, NetworkSandboxPolicy::Enabled, false));
    assert!(should_require_platform_sandbox(&open.file_system, NetworkSandboxPolicy::Restricted, false));
    assert!(should_require_platform_sandbox(&open.file_system, NetworkSandboxPolicy::Enabled, true));
    let root_write = FileSystemSandboxPolicy {
        kind: FileSystemSandboxKind::Restricted,
        entries: vec![FileSystemSandboxEntry {
            path: FileSystemPath::Special { value: FileSystemSpecialPath::Root },
            access: FileSystemAccessMode::Write,
        }],
    };
    assert!(root_write.has_full_disk_write_access());
    assert!(!should_require_platform_sandbox(&root_write, NetworkSandboxPolicy::Enabled, false));
}

#[test]
fn effective_profile_applies_overrides() {
    let base = PermissionProfile::read_only();
    let same = effective_permission_profile(&base, None);
    assert_eq!(same.network, NetworkSandboxPolicy::Restricted);
    assert_eq!(same.file_system.kind, FileSystemSandboxKind::Restricted);
    let o = AdditionalPermissionProfile { file_system: None, network: Some(NetworkSandboxPolicy::Enabled) };
    let eff = effective_permission_profile(&base, Some(&o));
    assert_eq!(eff.network, NetworkSandboxPolicy::Enabled);
    assert_eq!(eff.file_system.entries.len(), 1);
    let o2 = AdditionalPermissionProfile {
        file_system: Some(FileSystemSandboxPolicy { kind: FileSystemSandboxKind::Unrestricted, entries: vec![] }),
        network: None,
    };
    let eff2 = effective_permission_profile(&base, Some(&o2));
    assert_eq!(eff2.file_system.kind, FileSystemSandboxKind::Unrestricted);
    assert_eq!(eff2.network, NetworkSandboxPolicy::Restricted);
}

#[test]
fn legacy_policy_mapping() {
    let open = PermissionProfile::unrestricted();
    assert!(matches!(permission_profile_to_legacy_sandbox_policy(&open, "/w"), Ok(SandboxPolicy::DangerFullAccess)));
    let mut ext = PermissionProfile::unrestricted();
    ext.network = NetworkSandboxPolicy::Restricted;
    assert!(matches!(
        permission_profile_to_legacy_sandbox_policy(&ext, "/w"),
        Ok(SandboxPolicy::ExternalSandbox { network_access: rattler_sandbox::NetworkAccess::Restricted })
    ));
    let ro = PermissionProfile::read_only();
    assert!(matches!(ro.to_legacy_sandbox_policy("/w"), Ok(SandboxPolicy::ReadOnly { network_access: false })));
    let ws = PermissionProfile::workspace_write(&test_absolute("/proj"));
    match ws.to_legacy_sandbox_policy("/w") {
        Ok(SandboxPolicy::WorkspaceWrite { writable_roots, network_access, exclude_tmpdir_env_var, exclude_slash_tmp }) => {
            assert_eq!(writable_roots.len(), 1);
            assert_eq!(writable_roots[0].as_path(), "/proj");
            assert!(!network_access && !exclude_tmpdir_env_var && !exclude_slash_tmp);
        }
        _ => panic!("expected workspace write"),
    }
    let host = HostPaths { current_dir: Some("/".to_string()), tmpdir: None, slash_tmp_is_dir: true };
    assert!(matches!(
        compatibility_sandbox_policy_for_permission_profile(&ro, &ro.file_system, ro.network, "/w", &host),
        SandboxPolicy::ReadOnly { network_access: false }
    ));
}

#[test]
fn writable_roots_and_can_write() {
    let fs = FileSystemSandboxPolicy {
        kind: FileSystemSandboxKind::Restricted,
        entries: vec![
            FileSystemSandboxEntry { path: FileSystemPath::Special { value: FileSystemSpecialPath::Root }, access: FileSystemAccessMode::Read },
            FileSystemSandboxEntry { path: FileSystemPath::Special { value: FileSystemSpecialPath::CurrentWorkingDirectory }, access: FileSystemAccessMode::Write },
            FileSystemSandboxEntry { path: FileSystemPath::Special { value: FileSystemSpecialPath::SlashTmp }, access: FileSystemAccessMode::Write },
            FileSystemSandboxEntry { path: FileSystemPath::Special { value: FileSystemSpecialPath::Minimal }, access: FileSystemAccessMode::Write },
        ],
    };
    let roots: Vec<String> = fs.get_writable_roots_with_cwd("/w/./x").iter().map(|r| r.root.to_path_buf()).collect();
    assert_eq!(roots, vec!["/w/x", "/tmp"]);
    assert!(fs.can_write_path_with_cwd("/w/x/file", "/w/x"));
    assert!(fs.can_write_path_with_cwd("sub/file", "/w/x"));
    assert!(fs.can_write_path_with_cwd("/tmp", "/w/x"));
    assert!(!fs.can_write_path_with_cwd("/w/xy", "/w/x"));
    assert!(!fs.can_write_path_with_cwd("/etc/passwd", "/w/x"));
    assert!(!fs.has_full_disk_write_access());
    let host = HostPaths { current_dir: None, tmpdir: Some("/tmp/t".to_string()), slash_tmp_is_dir: true };
    match compatibility_workspace_write_policy(&fs, NetworkSandboxPolicy::Enabled, "/w/x", &host) {
        SandboxPolicy::WorkspaceWrite { writable_roots, network_access, exclude_tmpdir_env_var, exclude_slash_tmp } => {
            let r: Vec<String> = writable_roots.iter().map(|p| p.to_path_buf()).collect();
            assert_eq!(r, vec!["/tmp"]);
            assert!(network_access);
            assert!(!exclude_tmpdir_env_var);
            assert!(!exclude_slash_tmp);
        }
        _ => panic!("expected workspace write"),
    }
    let host2 = HostPaths { current_dir: None, tmpdir: Some(String::new()), slash_tmp_is_dir: false };
    match compatibility_workspace_write_policy(&fs, NetworkSandboxPolicy::Restricted, "/w/x", &host2) {
        SandboxPolicy::WorkspaceWrite { network_access, exclude_tmpdir_env_var, exclude_slash_tmp, .. } => {
            assert!(!network_access && exclude_tmpdir_env_var && exclude_slash_tmp);
        }
        _ => panic!("expected workspace write"),
    }
}

#[test]
fn linux_helper_arguments() {
    let args = create_linux_sandbox_command_args_for_permission_profile(
        vec!["ls".to_string(), "-l".to_string()], "/cmd", "{}".to_string(), "/policy", true, true);
    assert_eq!(args, vec!["--sandbox-policy-cwd", "/policy", "--command-cwd", "/cmd", "--permission-profile", "{}",
        "--use-legacy-landlock", "--allow-network-for-proxy", "--", "ls", "-l"]);
    let plain = create_linux_sandbox_command_args(vec!["true".to_string()], "/c", "/p", false, false);
    assert_eq!(plain, vec!["--sandbox-policy-cwd", "/p", "--command-cwd", "/c", "--", "true"]);
    assert!(allow_network_for_proxy(true));
    assert!(!allow_network_for_proxy(false));
}

#[test]
fn arg0_override() {
    assert_eq!(linux_sandbox_arg0_override("/opt/bin/rattler-linux-sandbox"), "/opt/bin/rattler-linux-sandbox");
    assert_eq!(linux_sandbox_arg0_override("/opt/bin/rattler-sandbox"), "rattler-linux-sandbox");
}

#[test]
fn bubblewrap_wsl1_check() {
    let ro = PermissionProfile::read_only();
    let open = PermissionProfile::unrestricted();
    assert_eq!(ensure_linux_bubblewrap_is_supported(&ro.file_system, false, false, true), Err(SandboxTransformError::Wsl1UnsupportedForBubblewrap));
    assert_eq!(ensure_linux_bubblewrap_is_supported(&ro.file_system, true, false, true), Ok(()));
    assert_eq!(ensure_linux_bubblewrap_is_supported(&open.file_system, false, false, true), Ok(()));
    assert_eq!(ensure_linux_bubblewrap_is_supported(&open.file_system, false, true, true), Err(SandboxTransformError::Wsl1UnsupportedForBubblewrap));
    assert_eq!(ensure_linux_bubblewrap_is_supported(&ro.file_system, false, false, false), Ok(()));
}

#[test]
fn transform_without_sandbox_passes_argv_through() {
    let mgr = SandboxManager::new(TargetOs::Linux);
    let perms = PermissionProfile::read_only();
    let proxy = NetworkProxy::new("h:1".to_string(), "s:2".to_string());
    let mut req = request(command("/bin/echo", &["hello"]), &perms, SandboxType::NoSandbox, None);
    req.network = Some(&proxy);
    let out = mgr.transform(req, EngineInputs { permission_profile_json: String::new(), is_wsl1: false, seatbelt_args: None }).ok().unwrap();
    assert_eq!(out.command, vec!["/bin/echo", "hello"]);
    assert!(out.arg0.is_none());
    assert_eq!(out.cwd.as_path(), "/work");
    assert_eq!(out.network.unwrap().http_addr(), "h:1");
    assert_eq!(out.network_sandbox_policy, NetworkSandboxPolicy::Restricted);
}

#[test]
fn transform_linux_wraps_in_helper() {
    let mgr = SandboxManager::new(TargetOs::Linux);
    let perms = PermissionProfile::read_only();
    let mut cmd = command("/bin/echo", &["hi"]);
    cmd.additional_permissions = Some(AdditionalPermissionProfile { file_system: None, network: Some(NetworkSandboxPolicy::Enabled) });
    let req = request(cmd, &perms, SandboxType::LinuxSeccomp, Some("/opt/rattler-sandbox"));
    let out = mgr.transform(req, EngineInputs { permission_profile_json: "{\"p\":1}".to_string(), is_wsl1: false, seatbelt_args: None }).ok().unwrap();
    assert_eq!(out.command, vec!["/opt/rattler-sandbox", "--sandbox-policy-cwd", "/work", "--command-cwd", "/work",
        "--permission-profile", "{\"p\":1}", "--", "/bin/echo", "hi"]);
    assert_eq!(out.arg0.as_deref(), Some("rattler-linux-sandbox"));
    assert_eq!(out.permission_profile.network, NetworkSandboxPolicy::Enabled);
}

#[test]
fn transform_errors() {
    let linux = SandboxManager::new(TargetOs::Linux);
    let mac = SandboxManager::new(TargetOs::MacOs);
    let perms = PermissionProfile::read_only();
    let r = linux.transform(request(command("ls", &[]), &perms, SandboxType::LinuxSeccomp, None), EngineInputs { permission_profile_json: String::new(), is_wsl1: false, seatbelt_args: None });
    assert!(matches!(r, Err(SandboxTransformError::MissingLinuxSandboxExecutable)));
    let r = mac.transform(request(command("ls", &[]), &perms, SandboxType::LinuxSeccomp, Some("/x")), EngineInputs { permission_profile_json: String::new(), is_wsl1: false, seatbelt_args: None });
    assert!(matches!(r, Err(SandboxTransformError::MissingLinuxSandboxExecutable)));
    let r = linux.transform(request(command("ls", &[]), &perms, SandboxType::MacosSeatbelt, None), EngineInputs { permission_profile_json: String::new(), is_wsl1: false, seatbelt_args: None });
    assert!(matches!(r, Err(SandboxTransformError::SeatbeltUnavailable)));
    let r = linux.transform(request(command("ls", &[]), &perms, SandboxType::LinuxSeccomp, Some("/x")), EngineInputs { permission_profile_json: String::new(), is_wsl1: true, seatbelt_args: None });
    assert!(matches!(r, Err(SandboxTransformError::Wsl1UnsupportedForBubblewrap)));
    let r = linux.transform(request(command("ls", &["-a"]), &perms, SandboxType::WindowsRestrictedToken, None), EngineInputs { permission_profile_json: String::new(), is_wsl1: true, seatbelt_args: None });
    assert_eq!(r.ok().unwrap().command, vec!["ls", "-a"]);
}

#[test]
fn transform_macos_seatbelt_runs_sandbox_exec() {
    let mac = SandboxManager::new(TargetOs::MacOs);
    let perms = PermissionProfile::read_only();
    let args = vec!["-p".to_string(), "(version 1)".to_string(), "--".to_string(), "ls".to_string()];
    let r = mac.transform(request(command("ls", &[]), &perms, SandboxType::MacosSeatbelt, None),
        EngineInputs { permission_profile_json: String::new(), is_wsl1: false, seatbelt_args: Some(args) });
    let out = r.ok().unwrap();
    assert_eq!(MACOS_PATH_TO_SEATBELT_EXECUTABLE, "/usr/bin/sandbox-exec");
    assert_eq!(out.command, vec!["/usr/bin/sandbox-exec", "-p", "(version 1)", "--", "ls"]);
    assert!(out.arg0.is_none());
    let r = mac.transform(request(command("ls", &[]), &perms, SandboxType::MacosSeatbelt, None),
        EngineInputs { permission_profile_json: String::new(), is_wsl1: false, seatbelt_args: None });
    assert!(matches!(r, Err(SandboxTransformError::SeatbeltUnavailable)));
}

#[test]
fn bwrap_warning_follows_host_facts() {
    let perms = PermissionProfile::read_only();
    let ok = BwrapHostFacts { bwrap_found: true, bwrap_works: true, is_wsl1: false };
    assert!(system_bwrap_warning(TargetOs::Linux, &perms, ok).is_none());
    let missing = BwrapHostFacts { bwrap_found: false, bwrap_works: false, is_wsl1: false };
    let m = system_bwrap_warning(TargetOs::Linux, &perms, missing).unwrap();
    assert!(m.contains("not found on PATH"));
    let broken = BwrapHostFacts { bwrap_found: true, bwrap_works: false, is_wsl1: false };
    let m = system_bwrap_warning(TargetOs::Linux, &perms, broken).unwrap();
    assert!(m.contains("failed to run"));
    let wsl = BwrapHostFacts { bwrap_found: true, bwrap_works: true, is_wsl1: true };
    let m = system_bwrap_warning(TargetOs::Linux, &perms, wsl).unwrap();
    assert!(m.contains("WSL1"));
    for os in [TargetOs::MacOs, TargetOs::Windows, TargetOs::Other] {
        assert!(system_bwrap_warning(os, &perms, missing).is_none());
    }
}

#[test]
fn bwrap_warning_and_otel() {
    let settings = OtelSettings {
        environment: "dev".to_string(), service_name: "s".to_string(), service_version: "1".to_string(),
        codex_home: "/h".to_string(), exporter: OtelExporter::default(), trace_exporter: OtelExporter::Statsig,
        metrics_exporter: OtelExporter::Disabled, runtime_metrics: false, tracestate: None, span_attributes: vec![],
    };
    assert!(OtelProvider::from(&settings).unwrap().is_none());
    let p = OtelProvider::default();
    p.shutdown();
    assert!(p.metrics().counter("c", 1, &()).is_ok());
}

#[test]
fn overrides_applied_twice_equal_once() {
    let base = PermissionProfile::workspace_write(&test_absolute("/p"));
    let o = AdditionalPermissionProfile { file_system: None, network: Some(NetworkSandboxPolicy::Enabled) };
    let once = effective_permission_profile(&base, Some(&o));
    let twice = effective_permission_profile(&once, Some(&o));
    assert_eq!(once.network, twice.network);
    assert_eq!(once.file_system.kind, twice.file_system.kind);
    assert_eq!(once.file_system.entries.len(), twice.file_system.entries.len());
}

#[test]
fn legacy_policy_keeps_network_setting() {
    let mut profiles = vec![
        PermissionProfile::unrestricted(),
        PermissionProfile::read_only(),
        PermissionProfile::workspace_write(&test_absolute("/p")),
    ];
    let mut restricted_open = PermissionProfile::unrestricted();
    restricted_open.network = NetworkSandboxPolicy::Restricted;
    profiles.push(restricted_open);
    for p in &profiles {
        let legacy = p.to_legacy_sandbox_policy("/w").ok().unwrap();
        assert_eq!(should_apply_network_block(&legacy), p.network == NetworkSandboxPolicy::Restricted);
    }
}
