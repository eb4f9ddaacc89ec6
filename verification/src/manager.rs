//! Sandbox manager: selects an engine and constructs the actual command line.

use vstd::prelude::*;
use crate::env_map::EnvMap;
use crate::error::SandboxTransformError;
use crate::linux::{create_linux_sandbox_command_args_for_permission_profile, helper_args, RATTLER_LINUX_SANDBOX_ARG0};
use crate::network_proxy::{strings_view, NetworkProxy, NetworkProxyView};
use crate::path::AbsolutePathBuf;
use crate::path_model::{absolutized, file_name, has_root, normalize};
use crate::policy::{
    paths_view, roots_view, spec_can_write_path, spec_full_disk_write, writable_roots,
    AdditionalPermissionProfile, FileSystemSandboxPolicy, FileSystemSandboxPolicyView,
    NetworkSandboxPolicy, PermissionProfile, PermissionProfileView, SandboxPolicy,
    SandboxPolicyView, WindowsSandboxLevel,
};
use crate::policy_transforms::{
    effective_permission_profile, effective_profile, legacy_policy,
    should_require_platform_sandbox, spec_requires_platform_sandbox,
};

verus! {

/// The engine a command runs under.
#[derive(Clone, Copy, Debug, PartialEq, Eq, Structural)]
pub enum SandboxType {
    NoSandbox,
    MacosSeatbelt,
    LinuxSeccomp,
    WindowsRestrictedToken,
}

/// The metric tag of each engine.
pub open spec fn metric_tag(t: SandboxType) -> Seq<char> {
    match t {
        SandboxType::NoSandbox => "none"@,
        SandboxType::MacosSeatbelt => "seatbelt"@,
        SandboxType::LinuxSeccomp => "seccomp"@,
        SandboxType::WindowsRestrictedToken => "windows_sandbox"@,
    }
}

impl SandboxType {
    /// The tag under which metrics about this engine are reported.
    pub fn as_metric_tag(self) -> (r: &'static str)
        ensures
            r@ == metric_tag(self),
    {
        match self {
            SandboxType::NoSandbox => "none",
            SandboxType::MacosSeatbelt => "seatbelt",
            SandboxType::LinuxSeccomp => "seccomp",
            SandboxType::WindowsRestrictedToken => "windows_sandbox",
        }
    }
}

/// Whether the caller wants a sandbox.
#[derive(Clone, Copy, Debug, PartialEq, Eq, Structural)]
pub enum SandboxablePreference {
    Auto,
    Require,
    Forbid,
}

/// The operating system the library is built for.
#[derive(Clone, Copy, Debug, PartialEq, Eq, Structural)]
pub enum TargetOs {
    MacOs,
    Linux,
    Windows,
    Other,
}

/// The platform's own sandbox engine, if it has one.
pub open spec fn spec_platform_sandbox(target_os: TargetOs, windows_sandbox_enabled: bool) -> Option<
    SandboxType,
> {
    match target_os {
        TargetOs::MacOs => Some(SandboxType::MacosSeatbelt),
        TargetOs::Linux => Some(SandboxType::LinuxSeccomp),
        TargetOs::Windows => if windows_sandbox_enabled {
            Some(SandboxType::WindowsRestrictedToken)
        } else {
            None
        },
        TargetOs::Other => None,
    }
}

/// The sandbox engine of `target_os`; on Windows only when the Windows
/// sandbox is enabled.
pub fn get_platform_sandbox(target_os: TargetOs, windows_sandbox_enabled: bool) -> (r: Option<
    SandboxType,
>)
    ensures
        r == spec_platform_sandbox(target_os, windows_sandbox_enabled),
{
    match target_os {
        TargetOs::MacOs => Some(SandboxType::MacosSeatbelt),
        TargetOs::Linux => Some(SandboxType::LinuxSeccomp),
        TargetOs::Windows => {
            if windows_sandbox_enabled {
                Some(SandboxType::WindowsRestrictedToken)
            } else {
                None
            }
        },
        TargetOs::Other => None,
    }
}

/// The engine `select_initial` picks.
pub open spec fn spec_select_initial(
    target_os: TargetOs,
    fs: FileSystemSandboxPolicyView,
    network: NetworkSandboxPolicy,
    pref: SandboxablePreference,
    windows_sandbox_level: WindowsSandboxLevel,
    has_managed_network_requirements: bool,
) -> SandboxType {
    let platform = match spec_platform_sandbox(
        target_os,
        windows_sandbox_level != WindowsSandboxLevel::Disabled,
    ) {
        Some(t) => t,
        None => SandboxType::NoSandbox,
    };
    match pref {
        SandboxablePreference::Forbid => SandboxType::NoSandbox,
        SandboxablePreference::Require => platform,
        SandboxablePreference::Auto => if spec_requires_platform_sandbox(
            fs,
            network,
            has_managed_network_requirements,
        ) {
            platform
        } else {
            SandboxType::NoSandbox
        },
    }
}

/// A program to run: its arguments, working directory, environment, and
/// any per-call permission overrides.
#[derive(Debug)]
pub struct SandboxCommand {
    pub program: String,
    pub args: Vec<String>,
    pub cwd: AbsolutePathBuf,
    pub env: EnvMap,
    pub additional_permissions: Option<AdditionalPermissionProfile>,
}

/// The command line to spawn, with everything the engine needs to run it.
#[derive(Debug)]
pub struct SandboxExecRequest {
    pub command: Vec<String>,
    pub cwd: AbsolutePathBuf,
    pub env: EnvMap,
    pub network: Option<NetworkProxy>,
    pub sandbox: SandboxType,
    pub windows_sandbox_level: WindowsSandboxLevel,
    pub windows_sandbox_private_desktop: bool,
    pub permission_profile: PermissionProfile,
    pub file_system_sandbox_policy: FileSystemSandboxPolicy,
    pub network_sandbox_policy: NetworkSandboxPolicy,
    pub arg0: Option<String>,
}

/// A command together with the permissions and engine settings to run it under.
pub struct SandboxTransformRequest<'a> {
    pub command: SandboxCommand,
    pub permissions: &'a PermissionProfile,
    pub sandbox: SandboxType,
    pub enforce_managed_network: bool,
    pub network: Option<&'a NetworkProxy>,
    pub sandbox_policy_cwd: &'a str,
    pub linux_sandbox_exe: Option<&'a str>,
    pub use_legacy_landlock: bool,
    pub windows_sandbox_level: WindowsSandboxLevel,
    pub windows_sandbox_private_desktop: bool,
}

/// The `argv[0]` the Linux helper is started under: the executable path
/// itself when its file name already is the helper name, else the helper name.
pub open spec fn spec_arg0_override(exe: Seq<char>) -> Seq<char> {
    if file_name(exe) == Some(RATTLER_LINUX_SANDBOX_ARG0@) {
        exe
    } else {
        RATTLER_LINUX_SANDBOX_ARG0@
    }
}

/// Whether the Linux engine needs bubblewrap for these settings.
pub open spec fn spec_requires_bubblewrap(
    fs: FileSystemSandboxPolicyView,
    use_legacy_landlock: bool,
    allow_network_for_proxy: bool,
) -> bool {
    !use_legacy_landlock && (!spec_full_disk_write(fs) || allow_network_for_proxy)
}

/// The Seatbelt launcher on macOS.
pub const MACOS_PATH_TO_SEATBELT_EXECUTABLE: &'static str = "/usr/bin/sandbox-exec";

/// What `transform` needs beyond the request, produced outside the library.
pub struct EngineInputs {
    /// The serialized effective profile handed to the Linux helper.
    pub permission_profile_json: String,
    /// Whether the host is WSL1, where bubblewrap cannot run.
    pub is_wsl1: bool,
    /// The Seatbelt arguments (policy, parameters, `--` and the command)
    /// generated for the effective policies, when a Seatbelt policy
    /// generator is available.
    pub seatbelt_args: Option<Vec<String>>,
}

pub open spec fn opt_strings_view(o: Option<Vec<String>>) -> Option<Seq<Seq<char>>> {
    match o {
        Some(v) => Some(strings_view(v@)),
        None => None,
    }
}

/// `first` followed by `rest`.
fn prepend(first: String, rest: &Vec<String>) -> (r: Vec<String>)
    ensures
        strings_view(r@) == seq![first@] + strings_view(rest@),
{
    let ghost f = first@;
    let mut full: Vec<String> = Vec::new();
    full.push(first);
    let mut k: usize = 0;
    while k < rest.len()
        invariant
            k <= rest@.len(),
            full@.len() == 1 + k,
            full@[0]@ == f,
            forall|j: int| 0 <= j < k ==> #[trigger] full@[1 + j]@ == rest@[j]@,
        decreases rest@.len() - k,
    {
        let a = rest[k].clone();
        full.push(a);
        k = k + 1;
    }
    proof {
        let want = seq![f] + strings_view(rest@);
        assert forall|j: int| 0 <= j < full@.len() implies #[trigger] strings_view(full@)[j]
            == want[j] by {
            if j >= 1 {
                assert(full@[1 + (j - 1)]@ == rest@[j - 1]@);
            }
        }
        assert(strings_view(full@) =~= want);
    }
    full
}

/// The engine dispatch of `transform`: the command line and `argv[0]`, or
/// the error.
pub open spec fn spec_transform_command(
    target_os: TargetOs,
    sandbox: SandboxType,
    argv: Seq<Seq<char>>,
    command_cwd: Seq<char>,
    effective: PermissionProfileView,
    profile_json: Seq<char>,
    sandbox_policy_cwd: Seq<char>,
    linux_sandbox_exe: Option<Seq<char>>,
    enforce_managed_network: bool,
    use_legacy_landlock: bool,
    is_wsl1: bool,
    seatbelt_args: Option<Seq<Seq<char>>>,
) -> Result<(Seq<Seq<char>>, Option<Seq<char>>), SandboxTransformError> {
    match sandbox {
        SandboxType::NoSandbox => Ok((argv, None)),
        SandboxType::MacosSeatbelt => if target_os != TargetOs::MacOs {
            Err(SandboxTransformError::SeatbeltUnavailable)
        } else {
            match seatbelt_args {
                Some(a) => Ok((seq![MACOS_PATH_TO_SEATBELT_EXECUTABLE@] + a, None)),
                None => Err(SandboxTransformError::SeatbeltUnavailable),
            }
        },
        SandboxType::LinuxSeccomp => if target_os != TargetOs::Linux {
            Err(SandboxTransformError::MissingLinuxSandboxExecutable)
        } else {
            match linux_sandbox_exe {
                None => Err(SandboxTransformError::MissingLinuxSandboxExecutable),
                Some(exe) => if is_wsl1 && spec_requires_bubblewrap(
                    effective.file_system,
                    use_legacy_landlock,
                    enforce_managed_network,
                ) {
                    Err(SandboxTransformError::Wsl1UnsupportedForBubblewrap)
                } else {
                    Ok(
                        (
                            seq![exe] + helper_args(
                                argv,
                                command_cwd,
                                Some(profile_json),
                                sandbox_policy_cwd,
                                use_legacy_landlock,
                                enforce_managed_network,
                            ),
                            Some(spec_arg0_override(exe)),
                        ),
                    )
                },
            }
        },
        SandboxType::WindowsRestrictedToken => Ok((argv, None)),
    }
}

pub open spec fn opt_str_view(o: Option<&str>) -> Option<Seq<char>> {
    match o {
        Some(s) => Some(s@),
        None => None,
    }
}

pub open spec fn opt_proxy_view(o: Option<&NetworkProxy>) -> Option<NetworkProxyView> {
    match o {
        Some(p) => Some(p@),
        None => None,
    }
}

pub open spec fn opt_owned_proxy_view(o: Option<NetworkProxy>) -> Option<NetworkProxyView> {
    match o {
        Some(p) => Some(p@),
        None => None,
    }
}

/// The `argv[0]` the Linux helper is started under.
pub fn linux_sandbox_arg0_override(exe: &str) -> (r: String)
    ensures
        r@ == spec_arg0_override(exe@),
{
    let name = crate::path::file_name(exe);
    let target = RATTLER_LINUX_SANDBOX_ARG0.to_owned();
    let matches = match &name {
        Some(n) => *n == target,
        None => false,
    };
    if matches {
        exe.to_owned()
    } else {
        target
    }
}

/// Refuses settings that need bubblewrap on WSL1.
pub fn ensure_linux_bubblewrap_is_supported(
    file_system_sandbox_policy: &FileSystemSandboxPolicy,
    use_legacy_landlock: bool,
    allow_network_for_proxy: bool,
    is_wsl1: bool,
) -> (r: Result<(), SandboxTransformError>)
    ensures
        r is Err <==> (is_wsl1 && spec_requires_bubblewrap(
            file_system_sandbox_policy@,
            use_legacy_landlock,
            allow_network_for_proxy,
        )),
        r matches Err(e) ==> e == SandboxTransformError::Wsl1UnsupportedForBubblewrap,
{
    let requires_bubblewrap = !use_legacy_landlock && (
    !file_system_sandbox_policy.has_full_disk_write_access() || allow_network_for_proxy);
    if is_wsl1 && requires_bubblewrap {
        return Err(SandboxTransformError::Wsl1UnsupportedForBubblewrap);
    }
    Ok(())
}

/// Dispatcher that selects an engine and builds command lines for the
/// platform it was made for.
pub struct SandboxManager {
    target_os: TargetOs,
}

impl SandboxManager {
    /// A manager for `target_os`.
    pub fn new(target_os: TargetOs) -> (r: Self)
        ensures
            r.target_os() == target_os,
    {
        SandboxManager { target_os }
    }

    pub closed spec fn target_os(&self) -> TargetOs {
        self.target_os
    }

    /// The engine to start with: none when the caller forbids one, the
    /// platform engine when the caller requires one, and otherwise the
    /// platform engine exactly when the policies call for isolation.
    pub fn select_initial(
        &self,
        file_system_policy: &FileSystemSandboxPolicy,
        network_policy: NetworkSandboxPolicy,
        pref: SandboxablePreference,
        windows_sandbox_level: WindowsSandboxLevel,
        has_managed_network_requirements: bool,
    ) -> (r: SandboxType)
        ensures
            r == spec_select_initial(
                self.target_os(),
                file_system_policy@,
                network_policy,
                pref,
                windows_sandbox_level,
                has_managed_network_requirements,
            ),
    {
        let windows_enabled = match windows_sandbox_level {
            WindowsSandboxLevel::Disabled => false,
            _ => true,
        };
        match pref {
            SandboxablePreference::Forbid => SandboxType::NoSandbox,
            SandboxablePreference::Require => {
                match get_platform_sandbox(self.target_os, windows_enabled) {
                    Some(t) => t,
                    None => SandboxType::NoSandbox,
                }
            },
            SandboxablePreference::Auto => {
                if should_require_platform_sandbox(
                    file_system_policy,
                    network_policy,
                    has_managed_network_requirements,
                ) {
                    match get_platform_sandbox(self.target_os, windows_enabled) {
                        Some(t) => t,
                        None => SandboxType::NoSandbox,
                    }
                } else {
                    SandboxType::NoSandbox
                }
            },
        }
    }

    /// Builds the command line that runs `request.command` under
    /// `request.sandbox`, with the effective permissions (the base profile
    /// with the command's overrides applied).
    ///
    /// `inputs` carries the serialized effective profile for the Linux
    /// helper, whether the host is WSL1, and the generated Seatbelt
    /// arguments: on macOS a Seatbelt request runs `sandbox-exec` with those
    /// arguments, and is refused when none were generated.
    pub fn transform(
        &self,
        request: SandboxTransformRequest<'_>,
        inputs: EngineInputs,
    ) -> (r: Result<SandboxExecRequest, SandboxTransformError>)
        ensures
            ({
                let eff = effective_profile(
                    request.permissions@,
                    match request.command.additional_permissions {
                        Some(o) => Some(o@),
                        None => None,
                    },
                );
                let argv = seq![request.command.program@] + strings_view(request.command.args@);
                let dispatch = spec_transform_command(
                    self.target_os(),
                    request.sandbox,
                    argv,
                    request.command.cwd@,
                    eff,
                    inputs.permission_profile_json@,
                    request.sandbox_policy_cwd@,
                    opt_str_view(request.linux_sandbox_exe),
                    request.enforce_managed_network,
                    request.use_legacy_landlock,
                    inputs.is_wsl1,
                    opt_strings_view(inputs.seatbelt_args),
                );
                match r {
                    Ok(x) => dispatch matches Ok(d) && strings_view(x.command@) == d.0 && match x.arg0 {
                        Some(a) => d.1 == Some(a@),
                        None => d.1 is None,
                    } && x.cwd@ == request.command.cwd@ && x.env@ == request.command.env@
                        && opt_owned_proxy_view(x.network) == opt_proxy_view(request.network)
                        && x.sandbox == request.sandbox && x.windows_sandbox_level
                        == request.windows_sandbox_level && x.windows_sandbox_private_desktop
                        == request.windows_sandbox_private_desktop && x.permission_profile@ == eff
                        && x.file_system_sandbox_policy@ == eff.file_system
                        && x.network_sandbox_policy == eff.network,
                    Err(e) => dispatch == Err::<(Seq<Seq<char>>, Option<Seq<char>>), _>(e),
                }
            }),
    {
        let SandboxTransformRequest {
            command,
            permissions,
            sandbox,
            enforce_managed_network,
            network,
            sandbox_policy_cwd,
            linux_sandbox_exe,
            use_legacy_landlock,
            windows_sandbox_level,
            windows_sandbox_private_desktop,
        } = request;
        let SandboxCommand { program, args, cwd, env, additional_permissions } = command;
        let effective = effective_permission_profile(permissions, additional_permissions.as_ref());
        let (effective_fs_policy, effective_net_policy) = effective.to_runtime_permissions();
        let ghost args_view = strings_view(args@);
        let mut argv: Vec<String> = Vec::new();
        argv.push(program);
        let mut i: usize = 0;
        let mut args = args;
        while i < args.len()
            invariant
                i <= args@.len(),
                strings_view(args@) == args_view,
                argv@.len() == 1 + i,
                argv@[0]@ == request.command.program@,
                forall|j: int| 0 <= j < i ==> #[trigger] argv@[1 + j]@ == args@[j]@,
            decreases args@.len() - i,
        {
            let a = args[i].clone();
            argv.push(a);
            i = i + 1;
        }
        proof {
            let want = seq![request.command.program@] + args_view;
            assert forall|j: int| 0 <= j < argv@.len() implies #[trigger] strings_view(argv@)[j]
                == want[j] by {
                if j >= 1 {
                    assert(argv@[1 + (j - 1)]@ == args@[j - 1]@);
                    assert(args_view[j - 1] == args@[j - 1]@);
                }
            }
            assert(strings_view(argv@) =~= want);
        }
        let (command_line, arg0): (Vec<String>, Option<String>) = match sandbox {
            SandboxType::NoSandbox => (argv, None),
            SandboxType::MacosSeatbelt => {
                match self.target_os {
                    TargetOs::MacOs => {},
                    _ => {
                        return Err(SandboxTransformError::SeatbeltUnavailable);
                    },
                }
                match &inputs.seatbelt_args {
                    Some(a) => (prepend(MACOS_PATH_TO_SEATBELT_EXECUTABLE.to_owned(), a), None),
                    None => {
                        return Err(SandboxTransformError::SeatbeltUnavailable);
                    },
                }
            },
            SandboxType::LinuxSeccomp => {
                match self.target_os {
                    TargetOs::Linux => {},
                    _ => {
                        return Err(SandboxTransformError::MissingLinuxSandboxExecutable);
                    },
                }
                let exe = match linux_sandbox_exe {
                    Some(e) => e,
                    None => {
                        return Err(SandboxTransformError::MissingLinuxSandboxExecutable);
                    },
                };
                let allow_proxy_network = crate::linux::allow_network_for_proxy(
                    enforce_managed_network,
                );
                match ensure_linux_bubblewrap_is_supported(
                    &effective_fs_policy,
                    use_legacy_landlock,
                    allow_proxy_network,
                    inputs.is_wsl1,
                ) {
                    Ok(()) => {},
                    Err(e) => {
                        return Err(e);
                    },
                }
                let args = create_linux_sandbox_command_args_for_permission_profile(
                    argv,
                    cwd.as_path(),
                    inputs.permission_profile_json,
                    sandbox_policy_cwd,
                    use_legacy_landlock,
                    allow_proxy_network,
                );
                let full = prepend(exe.to_owned(), &args);
                (full, Some(linux_sandbox_arg0_override(exe)))
            },
            SandboxType::WindowsRestrictedToken => (argv, None),
        };
        let network_copy = match network {
            Some(p) => Some(p.duplicate()),
            None => None,
        };
        Ok(
            SandboxExecRequest {
                command: command_line,
                cwd,
                env,
                network: network_copy,
                sandbox,
                windows_sandbox_level,
                windows_sandbox_private_desktop,
                permission_profile: effective,
                file_system_sandbox_policy: effective_fs_policy,
                network_sandbox_policy: effective_net_policy,
                arg0,
            },
        )
    }
}

} // verus!

verus! {

/// Facts about the host that building a compatibility policy reads: the
/// process working directory (used to make relative paths absolute), the
/// `TMPDIR` variable, and whether `/tmp` is a directory.
pub struct HostPaths {
    pub current_dir: Option<String>,
    pub tmpdir: Option<String>,
    pub slash_tmp_is_dir: bool,
}

/// A path made absolute: as is when it has a root, against the process
/// working directory otherwise (none when that is unknown or not absolute).
pub open spec fn spec_process_absolute(p: Seq<char>, current_dir: Option<Seq<char>>) -> Option<
    Seq<char>,
> {
    if has_root(p) {
        Some(normalize(p))
    } else {
        match current_dir {
            Some(d) => if has_root(d) {
                Some(absolutized(p, d))
            } else {
                None
            },
            None => None,
        }
    }
}

pub open spec fn opt_string_view(o: Option<String>) -> Option<Seq<char>> {
    match o {
        Some(s) => Some(s@),
        None => None,
    }
}

/// The roots other than `skip`, in order.
pub open spec fn roots_except(roots: Seq<Seq<char>>, skip: Option<Seq<char>>) -> Seq<Seq<char>>
    decreases roots.len(),
{
    if roots.len() == 0 {
        seq![]
    } else {
        let prev = roots_except(roots.drop_last(), skip);
        if skip == Some(roots.last()) {
            prev
        } else {
            prev.push(roots.last())
        }
    }
}

/// The workspace-write policy that stands in for a profile without a legacy
/// shape: the writable roots other than `cwd` itself, the profile's network
/// setting, and `TMPDIR` and `/tmp` excluded unless the policy lets them be
/// written.
pub open spec fn compat_workspace_write(
    fs: FileSystemSandboxPolicyView,
    network: NetworkSandboxPolicy,
    cwd: Seq<char>,
    current_dir: Option<Seq<char>>,
    tmpdir: Option<Seq<char>>,
    slash_tmp_is_dir: bool,
) -> SandboxPolicyView {
    let tmpdir_writable = match tmpdir {
        Some(t) => t.len() > 0 && match spec_process_absolute(t, current_dir) {
            Some(tp) => spec_can_write_path(fs, tp, cwd),
            None => false,
        },
        None => false,
    };
    let slash_tmp_writable = slash_tmp_is_dir && spec_can_write_path(fs, "/tmp"@, cwd);
    SandboxPolicyView::WorkspaceWrite {
        writable_roots: roots_except(
            writable_roots(fs.entries, cwd),
            spec_process_absolute(cwd, current_dir),
        ),
        network_access: network == NetworkSandboxPolicy::Enabled,
        exclude_tmpdir_env_var: !tmpdir_writable,
        exclude_slash_tmp: !slash_tmp_writable,
    }
}

/// `path` made absolute against the process working directory.
fn process_absolute(path: &str, current_dir: &Option<String>) -> (r: Option<AbsolutePathBuf>)
    ensures
        r matches Some(p) ==> spec_process_absolute(path@, opt_string_view(*current_dir)) == Some(
            p@,
        ),
        r is None ==> spec_process_absolute(path@, opt_string_view(*current_dir)) is None,
{
    if crate::path::is_absolute_path(path) {
        return Some(AbsolutePathBuf::from_absolute_path(path, "/"));
    }
    match current_dir {
        Some(d) => {
            if crate::path::is_absolute_path(d.as_str()) {
                Some(AbsolutePathBuf::from_absolute_path(path, d.as_str()))
            } else {
                None
            }
        },
        None => None,
    }
}

/// The workspace-write policy that stands in for a profile without a legacy shape.
pub fn compatibility_workspace_write_policy(
    file_system_policy: &FileSystemSandboxPolicy,
    network_policy: NetworkSandboxPolicy,
    cwd: &str,
    host: &HostPaths,
) -> (r: SandboxPolicy)
    ensures
        r@ == compat_workspace_write(
            file_system_policy@,
            network_policy,
            cwd@,
            opt_string_view(host.current_dir),
            opt_string_view(host.tmpdir),
            host.slash_tmp_is_dir,
        ),
{
    let ghost cd = opt_string_view(host.current_dir);
    let cwd_abs = process_absolute(cwd, &host.current_dir);
    let ghost skip = spec_process_absolute(cwd@, cd);
    let roots = file_system_policy.get_writable_roots_with_cwd(cwd);
    let ghost rv = roots_view(roots@);
    let mut writable: Vec<AbsolutePathBuf> = Vec::new();
    let mut i: usize = 0;
    assert(rv.take(0) =~= Seq::<Seq<char>>::empty());
    assert(paths_view(writable@) =~= Seq::<Seq<char>>::empty());
    while i < roots.len()
        invariant
            i <= roots@.len(),
            rv == roots_view(roots@),
            cwd_abs matches Some(c) ==> skip == Some(c@),
            cwd_abs is None ==> skip is None,
            paths_view(writable@) == roots_except(rv.take(i as int), skip),
        decreases roots@.len() - i,
    {
        let root = &roots[i].root;
        assert(rv.take(i + 1).drop_last() =~= rv.take(i as int));
        assert(rv.take(i + 1).last() == root@);
        let same = match &cwd_abs {
            Some(c) => c.same_path(root),
            None => false,
        };
        if !same {
            let ghost before = writable@;
            let p = root.clone_path();
            let ghost pv = p@;
            writable.push(p);
            assert(paths_view(writable@) =~= paths_view(before).push(pv));
        }
        i = i + 1;
    }
    assert(rv.take(roots@.len() as int) =~= rv);
    let tmpdir_writable = match &host.tmpdir {
        Some(t) => {
            if t.as_str().is_empty() {
                false
            } else {
                match process_absolute(t.as_str(), &host.current_dir) {
                    Some(tp) => file_system_policy.can_write_path_with_cwd(tp.as_path(), cwd),
                    None => false,
                }
            }
        },
        None => false,
    };
    let slash_tmp_writable = host.slash_tmp_is_dir && file_system_policy.can_write_path_with_cwd(
        "/tmp",
        cwd,
    );
    SandboxPolicy::WorkspaceWrite {
        writable_roots: writable,
        network_access: network_policy.is_enabled(),
        exclude_tmpdir_env_var: !tmpdir_writable,
        exclude_slash_tmp: !slash_tmp_writable,
    }
}

/// The legacy [`SandboxPolicy`] for a [`PermissionProfile`]. Every profile
/// maps to a legacy policy ([`PermissionProfile::to_legacy_sandbox_policy`]
/// never fails), so the result is always that mapping; the workspace-write
/// derivation from the file-system policy and the host is the fallback for
/// a failed conversion, which does not occur.
pub fn compatibility_sandbox_policy_for_permission_profile(
    permissions: &PermissionProfile,
    file_system_policy: &FileSystemSandboxPolicy,
    network_policy: NetworkSandboxPolicy,
    cwd: &str,
    host: &HostPaths,
) -> (r: SandboxPolicy)
    ensures
        r@ == legacy_policy(permissions@, cwd@),
{
    match permissions.to_legacy_sandbox_policy(cwd) {
        Ok(p) => p,
        Err(_) => compatibility_workspace_write_policy(
            file_system_policy,
            network_policy,
            cwd,
            host,
        ),
    }
}

} // verus!

verus! {

/// A caller that requires a sandbox gets the platform's engine: Seatbelt on
/// macOS, the Linux helper on Linux, the restricted-token engine on Windows
/// at every sandbox level but `Disabled`, and none on Windows with the
/// sandbox disabled or on other platforms.
pub proof fn law_require_selects_platform_engine(
    target_os: TargetOs,
    fs: FileSystemSandboxPolicyView,
    network: NetworkSandboxPolicy,
    windows_sandbox_level: WindowsSandboxLevel,
    has_managed_network_requirements: bool,
)
    ensures
        spec_select_initial(
            target_os,
            fs,
            network,
            SandboxablePreference::Require,
            windows_sandbox_level,
            has_managed_network_requirements,
        ) == match target_os {
            TargetOs::MacOs => SandboxType::MacosSeatbelt,
            TargetOs::Linux => SandboxType::LinuxSeccomp,
            TargetOs::Windows => match windows_sandbox_level {
                WindowsSandboxLevel::Disabled => SandboxType::NoSandbox,
                WindowsSandboxLevel::RestrictedToken => SandboxType::WindowsRestrictedToken,
                WindowsSandboxLevel::Elevated => SandboxType::WindowsRestrictedToken,
            },
            TargetOs::Other => SandboxType::NoSandbox,
        },
{
}

/// A root is kept by [`roots_except`] exactly when it is one of the roots
/// and not the one skipped.
proof fn lemma_roots_except_members(roots: Seq<Seq<char>>, skip: Option<Seq<char>>, x: Seq<char>)
    ensures
        roots_except(roots, skip).contains(x) <==> (roots.contains(x) && skip != Some(x)),
    decreases roots.len(),
{
    if roots.len() > 0 {
        let init = roots.drop_last();
        lemma_roots_except_members(init, skip, x);
        let prev = roots_except(init, skip);
        assert(roots =~= init.push(roots.last()));
        if roots.contains(x) && skip != Some(x) {
            if x == roots.last() {
                assert(prev.push(x)[prev.len() as int] == x);
            } else {
                let k = choose|k: int| 0 <= k < roots.len() && roots[k] == x;
                assert(init[k] == x);
                let j = choose|j: int| 0 <= j < prev.len() && prev[j] == x;
                if skip != Some(roots.last()) {
                    assert(prev.push(roots.last())[j] == x);
                }
            }
        }
        if roots_except(roots, skip).contains(x) {
            let j = choose|j: int|
                0 <= j < roots_except(roots, skip).len() && roots_except(roots, skip)[j] == x;
            if skip != Some(roots.last()) && j == prev.len() {
                assert(roots[roots.len() - 1] == x);
            } else {
                assert(prev[j] == x);
                let k = choose|k: int| 0 <= k < init.len() && init[k] == x;
                assert(roots[k] == x);
            }
        }
    }
}

/// The stand-in workspace-write policy keeps every writable root of the
/// file-system policy except the working directory itself, and no other
/// path; it opens the network exactly when the network policy enables it,
/// and keeps `/tmp` out unless `/tmp` is a directory the policy lets be
/// written.
pub proof fn law_compat_policy_keeps_roots_but_cwd(
    fs: FileSystemSandboxPolicyView,
    network: NetworkSandboxPolicy,
    cwd: Seq<char>,
    current_dir: Option<Seq<char>>,
    tmpdir: Option<Seq<char>>,
    slash_tmp_is_dir: bool,
    x: Seq<char>,
)
    ensures
        compat_workspace_write(fs, network, cwd, current_dir, tmpdir, slash_tmp_is_dir) matches
            SandboxPolicyView::WorkspaceWrite {
            writable_roots: w,
            network_access: n,
            exclude_slash_tmp: e,
            ..
        } && (w.contains(x) <==> (writable_roots(fs.entries, cwd).contains(x)
            && spec_process_absolute(cwd, current_dir) != Some(x))) && (n <==> network
            == NetworkSandboxPolicy::Enabled) && (!e ==> slash_tmp_is_dir && spec_can_write_path(
            fs,
            "/tmp"@,
            cwd,
        )),
{
    lemma_roots_except_members(
        writable_roots(fs.entries, cwd),
        spec_process_absolute(cwd, current_dir),
        x,
    );
}

/// A caller that forbids sandboxing never gets a sandbox.
pub proof fn law_forbid_selects_no_sandbox(
    target_os: TargetOs,
    fs: FileSystemSandboxPolicyView,
    network: NetworkSandboxPolicy,
    windows_sandbox_level: WindowsSandboxLevel,
    has_managed_network_requirements: bool,
)
    ensures
        spec_select_initial(
            target_os,
            fs,
            network,
            SandboxablePreference::Forbid,
            windows_sandbox_level,
            has_managed_network_requirements,
        ) == SandboxType::NoSandbox,
{
}

/// With full disk write access, the network enabled and no managed-network
/// requirement, automatic selection runs the command without a sandbox;
/// anything more restrictive selects the platform engine.
pub proof fn law_auto_selects_platform_iff_restricted(
    target_os: TargetOs,
    fs: FileSystemSandboxPolicyView,
    network: NetworkSandboxPolicy,
    windows_sandbox_level: WindowsSandboxLevel,
    has_managed_network_requirements: bool,
)
    ensures
        spec_select_initial(
            target_os,
            fs,
            network,
            SandboxablePreference::Auto,
            windows_sandbox_level,
            has_managed_network_requirements,
        ) == if !has_managed_network_requirements && spec_full_disk_write(fs) && network
            == NetworkSandboxPolicy::Enabled {
            SandboxType::NoSandbox
        } else {
            spec_select_initial(
                target_os,
                fs,
                network,
                SandboxablePreference::Require,
                windows_sandbox_level,
                has_managed_network_requirements,
            )
        },
{
}

/// A Linux command line starts with the helper executable, then hands the
/// helper the policy's working directory after `--sandbox-policy-cwd`, the
/// command's own working directory after `--command-cwd`, and the serialized
/// profile after `--permission-profile`; it ends with `--` followed by the
/// command as given.
pub proof fn law_linux_command_wraps_argv(
    argv: Seq<Seq<char>>,
    command_cwd: Seq<char>,
    effective: PermissionProfileView,
    profile_json: Seq<char>,
    sandbox_policy_cwd: Seq<char>,
    exe: Seq<char>,
    enforce_managed_network: bool,
    use_legacy_landlock: bool,
    is_wsl1: bool,
)
    ensures
        spec_transform_command(
            TargetOs::Linux,
            SandboxType::LinuxSeccomp,
            argv,
            command_cwd,
            effective,
            profile_json,
            sandbox_policy_cwd,
            Some(exe),
            enforce_managed_network,
            use_legacy_landlock,
            is_wsl1,
            None,
        ) matches Ok(d) ==> {
            let cmd = d.0;
            &&& cmd.len() > argv.len() + 1
            &&& cmd.len() >= 8
            &&& cmd[0] == exe
            &&& cmd[1] == "--sandbox-policy-cwd"@
            &&& cmd[2] == sandbox_policy_cwd
            &&& cmd[3] == "--command-cwd"@
            &&& cmd[4] == command_cwd
            &&& cmd[5] == "--permission-profile"@
            &&& cmd[6] == profile_json
            &&& cmd[cmd.len() - argv.len() - 1] == "--"@
            &&& cmd.skip(cmd.len() - argv.len()) == argv
        },
{
    let d = spec_transform_command(
        TargetOs::Linux,
        SandboxType::LinuxSeccomp,
        argv,
        command_cwd,
        effective,
        profile_json,
        sandbox_policy_cwd,
        Some(exe),
        enforce_managed_network,
        use_legacy_landlock,
        is_wsl1,
        None,
    );
    if d is Ok {
        let h = helper_args(
            argv,
            command_cwd,
            Some(profile_json),
            sandbox_policy_cwd,
            use_legacy_landlock,
            enforce_managed_network,
        );
        let cmd = seq![exe] + h;
        assert(d->Ok_0.0 == cmd);
        assert(h.len() >= argv.len() + 1);
        assert(cmd.skip(cmd.len() - argv.len()) =~= argv);
        assert(cmd[cmd.len() - argv.len() - 1] == "--"@);
        assert(cmd[1] == "--sandbox-policy-cwd"@);
        assert(cmd[2] == sandbox_policy_cwd);
        assert(cmd[3] == "--command-cwd"@);
        assert(cmd[4] == command_cwd);
        assert(cmd[5] == "--permission-profile"@);
        assert(cmd[6] == profile_json);
    }
}

/// The rest of a Linux command line: `--use-legacy-landlock` appears right
/// after the profile exactly when legacy Landlock is asked for, followed by
/// `--allow-network-for-proxy` exactly when the managed network is enforced;
/// `argv[0]` names the helper. The request is refused for WSL1 only, and
/// there only when bubblewrap is needed: without legacy Landlock, and with a
/// restricted file system or the managed network.
pub proof fn law_linux_command_flags(
    argv: Seq<Seq<char>>,
    command_cwd: Seq<char>,
    effective: PermissionProfileView,
    profile_json: Seq<char>,
    sandbox_policy_cwd: Seq<char>,
    exe: Seq<char>,
    enforce_managed_network: bool,
    use_legacy_landlock: bool,
    is_wsl1: bool,
)
    ensures
        ({
            let r = spec_transform_command(
                TargetOs::Linux,
                SandboxType::LinuxSeccomp,
                argv,
                command_cwd,
                effective,
                profile_json,
                sandbox_policy_cwd,
                Some(exe),
                enforce_managed_network,
                use_legacy_landlock,
                is_wsl1,
                None,
            );
            let flags = (if use_legacy_landlock {
                seq!["--use-legacy-landlock"@]
            } else {
                Seq::<Seq<char>>::empty()
            }) + (if enforce_managed_network {
                seq!["--allow-network-for-proxy"@]
            } else {
                Seq::<Seq<char>>::empty()
            });
            &&& r is Err <==> (is_wsl1 && !use_legacy_landlock && (!spec_full_disk_write(
                effective.file_system,
            ) || enforce_managed_network))
            &&& r is Err ==> r == Err::<(Seq<Seq<char>>, Option<Seq<char>>), _>(
                SandboxTransformError::Wsl1UnsupportedForBubblewrap,
            )
            &&& r matches Ok(d) ==> {
                &&& d.0.len() == 8 + flags.len() + argv.len()
                &&& d.0.subrange(7, 7 + flags.len() as int) == flags
                &&& d.0[7 + flags.len() as int] == "--"@
                &&& file_name(exe) == Some(RATTLER_LINUX_SANDBOX_ARG0@) ==> d.1 == Some(exe)
                &&& file_name(exe) != Some(RATTLER_LINUX_SANDBOX_ARG0@) ==> d.1 == Some(
                    RATTLER_LINUX_SANDBOX_ARG0@,
                )
            }
        }),
{
    let flags = (if use_legacy_landlock {
        seq!["--use-legacy-landlock"@]
    } else {
        Seq::<Seq<char>>::empty()
    }) + (if enforce_managed_network {
        seq!["--allow-network-for-proxy"@]
    } else {
        Seq::<Seq<char>>::empty()
    });
    let h = helper_args(
        argv,
        command_cwd,
        Some(profile_json),
        sandbox_policy_cwd,
        use_legacy_landlock,
        enforce_managed_network,
    );
    let cmd = seq![exe] + h;
    assert(cmd.subrange(7, 7 + flags.len() as int) =~= flags);
}

/// On macOS a Seatbelt request runs `sandbox-exec` with the generated
/// arguments and no `argv[0]` override; elsewhere, or without generated
/// arguments, it is refused.
pub proof fn law_seatbelt_runs_sandbox_exec(
    target_os: TargetOs,
    argv: Seq<Seq<char>>,
    command_cwd: Seq<char>,
    effective: PermissionProfileView,
    profile_json: Seq<char>,
    sandbox_policy_cwd: Seq<char>,
    linux_sandbox_exe: Option<Seq<char>>,
    enforce_managed_network: bool,
    use_legacy_landlock: bool,
    is_wsl1: bool,
    seatbelt_args: Option<Seq<Seq<char>>>,
)
    ensures
        spec_transform_command(
            target_os,
            SandboxType::MacosSeatbelt,
            argv,
            command_cwd,
            effective,
            profile_json,
            sandbox_policy_cwd,
            linux_sandbox_exe,
            enforce_managed_network,
            use_legacy_landlock,
            is_wsl1,
            seatbelt_args,
        ) == (match (target_os, seatbelt_args) {
            (TargetOs::MacOs, Some(a)) => Ok::<(Seq<Seq<char>>, Option<Seq<char>>), SandboxTransformError>(
                (seq![MACOS_PATH_TO_SEATBELT_EXECUTABLE@] + a, None),
            ),
            _ => Err(SandboxTransformError::SeatbeltUnavailable),
        }),
{
}

/// Without a sandbox, or under the Windows engine, the command line is the
/// program followed by its arguments.
pub proof fn law_passthrough_keeps_argv(
    target_os: TargetOs,
    sandbox: SandboxType,
    argv: Seq<Seq<char>>,
    command_cwd: Seq<char>,
    effective: PermissionProfileView,
    profile_json: Seq<char>,
    sandbox_policy_cwd: Seq<char>,
    linux_sandbox_exe: Option<Seq<char>>,
    enforce_managed_network: bool,
    use_legacy_landlock: bool,
    is_wsl1: bool,
)
    requires
        sandbox == SandboxType::NoSandbox || sandbox == SandboxType::WindowsRestrictedToken,
    ensures
        spec_transform_command(
            target_os,
            sandbox,
            argv,
            command_cwd,
            effective,
            profile_json,
            sandbox_policy_cwd,
            linux_sandbox_exe,
            enforce_managed_network,
            use_legacy_landlock,
            is_wsl1,
            None,
        ) == Ok::<(Seq<Seq<char>>, Option<Seq<char>>), SandboxTransformError>((argv, None)),
{
}

} // verus!
