//! Command-line construction for the Linux sandbox helper.

use vstd::prelude::*;
use crate::network_proxy::strings_view;

verus! {

/// Basename used when the sandbox executable self-invokes as the Linux
/// sandbox helper.
pub const RATTLER_LINUX_SANDBOX_ARG0: &'static str = "rattler-linux-sandbox";

/// What the host shows about the system bubblewrap: whether a `bwrap` was
/// found on `PATH`, whether the one found runs, and whether the host is WSL1.
#[derive(Clone, Copy, Debug, PartialEq, Eq)]
pub struct BwrapHostFacts {
    pub bwrap_found: bool,
    pub bwrap_works: bool,
    pub is_wsl1: bool,
}

/// The warning for the system bubblewrap on a Linux host: WSL1 first (no
/// bubblewrap works there), then a missing `bwrap`, then one that fails to
/// run; none when a working `bwrap` is there.
pub open spec fn bwrap_warning_message(host: BwrapHostFacts) -> Option<Seq<char>> {
    if host.is_wsl1 {
        Some("bubblewrap is not supported under WSL1; commands will run without the Linux sandbox"@)
    } else if !host.bwrap_found {
        Some("bubblewrap (bwrap) was not found on PATH; install it, for example with `pixi global install bubblewrap`"@)
    } else if !host.bwrap_works {
        Some("the system bubblewrap (bwrap) failed to run; check that unprivileged user namespaces are enabled"@)
    } else {
        None
    }
}

/// The warning for the system bubblewrap on a Linux host, as
/// [`bwrap_warning_message`] states it.
pub fn linux_bwrap_warning(host: BwrapHostFacts) -> (r: Option<String>)
    ensures
        r is Some <==> (host.is_wsl1 || !host.bwrap_found || !host.bwrap_works),
        match (r, bwrap_warning_message(host)) {
            (Some(m), Some(s)) => m@ == s,
            (None, None) => true,
            _ => false,
        },
{
    if host.is_wsl1 {
        Some("bubblewrap is not supported under WSL1; commands will run without the Linux sandbox".to_owned())
    } else if !host.bwrap_found {
        Some("bubblewrap (bwrap) was not found on PATH; install it, for example with `pixi global install bubblewrap`".to_owned())
    } else if !host.bwrap_works {
        Some("the system bubblewrap (bwrap) failed to run; check that unprivileged user namespaces are enabled".to_owned())
    } else {
        None
    }
}

/// Whether the helper should keep network access for the managed proxy.
pub fn allow_network_for_proxy(enforce_managed_network: bool) -> (r: bool)
    ensures
        r == enforce_managed_network,
{
    enforce_managed_network
}

/// The helper's arguments: the two working directories, the serialized
/// permission profile when there is one, the optional flags, `--`, and the
/// command itself.
pub open spec fn helper_args(
    command: Seq<Seq<char>>,
    command_cwd: Seq<char>,
    permission_profile_json: Option<Seq<char>>,
    sandbox_policy_cwd: Seq<char>,
    use_legacy_landlock: bool,
    allow_network_for_proxy: bool,
) -> Seq<Seq<char>> {
    let dirs = seq!["--sandbox-policy-cwd"@, sandbox_policy_cwd, "--command-cwd"@, command_cwd];
    let profile = match permission_profile_json {
        Some(j) => seq!["--permission-profile"@, j],
        None => Seq::empty(),
    };
    let legacy = if use_legacy_landlock {
        seq!["--use-legacy-landlock"@]
    } else {
        Seq::empty()
    };
    let proxy = if allow_network_for_proxy {
        seq!["--allow-network-for-proxy"@]
    } else {
        Seq::empty()
    };
    dirs + profile + legacy + proxy + seq!["--"@] + command
}

fn push_str(v: &mut Vec<String>, s: &str)
    ensures
        strings_view(final(v)@) == strings_view(old(v)@).push(s@),
{
    v.push(s.to_owned());
    assert(strings_view(v@) =~= strings_view(old(v)@).push(s@));
}

fn helper_args_impl(
    command: Vec<String>,
    command_cwd: &str,
    permission_profile_json: Option<String>,
    sandbox_policy_cwd: &str,
    use_legacy_landlock: bool,
    allow_network_for_proxy: bool,
) -> (r: Vec<String>)
    ensures
        strings_view(r@) == helper_args(
            strings_view(command@),
            command_cwd@,
            match permission_profile_json {
                Some(j) => Some(j@),
                None => None,
            },
            sandbox_policy_cwd@,
            use_legacy_landlock,
            allow_network_for_proxy,
        ),
{
    let ghost jv: Option<Seq<char>> = match &permission_profile_json {
        Some(j) => Some(j@),
        None => None,
    };
    let mut out: Vec<String> = Vec::new();
    push_str(&mut out, "--sandbox-policy-cwd");
    push_str(&mut out, sandbox_policy_cwd);
    push_str(&mut out, "--command-cwd");
    push_str(&mut out, command_cwd);
    let ghost dirs = strings_view(out@);
    assert(dirs =~= seq!["--sandbox-policy-cwd"@, sandbox_policy_cwd@, "--command-cwd"@, command_cwd@]);
    match permission_profile_json {
        Some(j) => {
            push_str(&mut out, "--permission-profile");
            let ghost before = out@;
            let ghost jj = j@;
            out.push(j);
            assert(strings_view(out@) =~= strings_view(before).push(jj));
        },
        None => {},
    }
    let ghost profile: Seq<Seq<char>> = match jv {
        Some(j) => seq!["--permission-profile"@, j],
        None => Seq::empty(),
    };
    assert(strings_view(out@) =~= dirs + profile);
    let ghost after_profile = strings_view(out@);
    if use_legacy_landlock {
        push_str(&mut out, "--use-legacy-landlock");
    }
    let ghost legacy: Seq<Seq<char>> = if use_legacy_landlock {
        seq!["--use-legacy-landlock"@]
    } else {
        Seq::empty()
    };
    assert(strings_view(out@) =~= after_profile + legacy);
    let ghost after_legacy = strings_view(out@);
    if allow_network_for_proxy {
        push_str(&mut out, "--allow-network-for-proxy");
    }
    let ghost proxy: Seq<Seq<char>> = if allow_network_for_proxy {
        seq!["--allow-network-for-proxy"@]
    } else {
        Seq::empty()
    };
    assert(strings_view(out@) =~= after_legacy + proxy);
    push_str(&mut out, "--");
    let ghost head = strings_view(out@);
    let ghost hl = out@.len();
    let mut i: usize = 0;
    while i < command.len()
        invariant
            i <= command@.len(),
            hl == head.len(),
            out@.len() == hl + i,
            forall|j: int| 0 <= j < hl ==> #[trigger] out@[j]@ == head[j],
            forall|j: int| 0 <= j < i ==> #[trigger] out@[hl + j]@ == command@[j]@,
        decreases command@.len() - i,
    {
        let c = command[i].clone();
        out.push(c);
        i = i + 1;
    }
    assert forall|j: int| 0 <= j < out@.len() implies #[trigger] strings_view(out@)[j] == (head
        + strings_view(command@))[j] by {
        if j >= hl {
            assert(out@[hl + (j - hl)]@ == command@[j - hl]@);
        }
    }
    assert(strings_view(out@) =~= head + strings_view(command@));
    assert(head =~= dirs + profile + legacy + proxy + seq!["--"@]);
    out
}

/// Builds the command line the helper binary receives, carrying the given
/// serialized permission profile.
pub fn create_linux_sandbox_command_args_for_permission_profile(
    command: Vec<String>,
    command_cwd: &str,
    permission_profile_json: String,
    sandbox_policy_cwd: &str,
    use_legacy_landlock: bool,
    allow_network_for_proxy: bool,
) -> (r: Vec<String>)
    ensures
        strings_view(r@) == helper_args(
            strings_view(command@),
            command_cwd@,
            Some(permission_profile_json@),
            sandbox_policy_cwd@,
            use_legacy_landlock,
            allow_network_for_proxy,
        ),
{
    helper_args_impl(
        command,
        command_cwd,
        Some(permission_profile_json),
        sandbox_policy_cwd,
        use_legacy_landlock,
        allow_network_for_proxy,
    )
}

/// Builds the command line the helper binary receives, without a
/// permission profile.
pub fn create_linux_sandbox_command_args(
    command: Vec<String>,
    command_cwd: &str,
    sandbox_policy_cwd: &str,
    use_legacy_landlock: bool,
    allow_network_for_proxy: bool,
) -> (r: Vec<String>)
    ensures
        strings_view(r@) == helper_args(
            strings_view(command@),
            command_cwd@,
            None,
            sandbox_policy_cwd@,
            use_legacy_landlock,
            allow_network_for_proxy,
        ),
{
    helper_args_impl(
        command,
        command_cwd,
        None,
        sandbox_policy_cwd,
        use_legacy_landlock,
        allow_network_for_proxy,
    )
}

/// The helper's arguments name the policy's working directory after
/// `--sandbox-policy-cwd` and the command's own after `--command-cwd`; a
/// serialized profile, when given, follows `--permission-profile`; then come
/// `--use-legacy-landlock` and `--allow-network-for-proxy`, each present
/// exactly when asked for, and `--` with the command unchanged.
pub proof fn law_helper_args_layout(
    command: Seq<Seq<char>>,
    command_cwd: Seq<char>,
    permission_profile_json: Option<Seq<char>>,
    sandbox_policy_cwd: Seq<char>,
    use_legacy_landlock: bool,
    allow_network_for_proxy: bool,
)
    ensures
        ({
            let a = helper_args(
                command,
                command_cwd,
                permission_profile_json,
                sandbox_policy_cwd,
                use_legacy_landlock,
                allow_network_for_proxy,
            );
            let p: int = if permission_profile_json is Some {
                2
            } else {
                0
            };
            let f: int = (if use_legacy_landlock {
                1int
            } else {
                0int
            }) + (if allow_network_for_proxy {
                1int
            } else {
                0int
            });
            &&& a.len() == 5 + p + f + command.len()
            &&& a[0] == "--sandbox-policy-cwd"@ && a[1] == sandbox_policy_cwd
            &&& a[2] == "--command-cwd"@ && a[3] == command_cwd
            &&& permission_profile_json matches Some(j) ==> a[4] == "--permission-profile"@
                && a[5] == j
            &&& use_legacy_landlock ==> a[4 + p] == "--use-legacy-landlock"@
            &&& allow_network_for_proxy ==> a[4 + p + f - 1] == "--allow-network-for-proxy"@
            &&& a[4 + p + f] == "--"@
            &&& a.skip(5 + p + f) == command
        }),
{
    let a = helper_args(
        command,
        command_cwd,
        permission_profile_json,
        sandbox_policy_cwd,
        use_legacy_landlock,
        allow_network_for_proxy,
    );
    let p: int = if permission_profile_json is Some {
        2
    } else {
        0
    };
    let f: int = (if use_legacy_landlock {
        1int
    } else {
        0int
    }) + (if allow_network_for_proxy {
        1int
    } else {
        0int
    });
    assert(a.skip(5 + p + f) =~= command);
}

} // verus!
