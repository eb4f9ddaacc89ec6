//! Resolve a [`PermissionProfile`] (plus optional per-call overrides) into the
//! runtime policies the sandbox engines consume.

use vstd::prelude::*;
use crate::path::AbsolutePathBuf;
use crate::policy::{
    paths_view, resolve_entry_path, roots_view, spec_full_disk_write, writable_roots, AdditionalPermissionProfile,
    AdditionalPermissionProfileView, FileSystemSandboxPolicy, FileSystemSandboxPolicyView,
    FileSystemAccessMode, NetworkAccess, NetworkSandboxPolicy, PermissionProfile, PermissionProfileView, SandboxPolicy,
    SandboxPolicyView, WritableRoot,
};

verus! {

/// The base profile with each override that is present put in place.
pub open spec fn effective_profile(
    base: PermissionProfileView,
    overrides: Option<AdditionalPermissionProfileView>,
) -> PermissionProfileView {
    match overrides {
        None => base,
        Some(o) => PermissionProfileView {
            file_system: match o.file_system {
                Some(f) => f,
                None => base.file_system,
            },
            network: match o.network {
                Some(n) => n,
                None => base.network,
            },
        },
    }
}

/// Whether the runtime policies call for platform isolation.
pub open spec fn spec_requires_platform_sandbox(
    fs: FileSystemSandboxPolicyView,
    network: NetworkSandboxPolicy,
    has_managed_network_requirements: bool,
) -> bool {
    has_managed_network_requirements || !spec_full_disk_write(fs) || network
        != NetworkSandboxPolicy::Enabled
}

/// The legacy policy a profile maps to.
pub open spec fn legacy_policy(p: PermissionProfileView, cwd: Seq<char>) -> SandboxPolicyView {
    let net = p.network == NetworkSandboxPolicy::Enabled;
    if spec_full_disk_write(p.file_system) {
        if net {
            SandboxPolicyView::DangerFullAccess
        } else {
            SandboxPolicyView::ExternalSandbox { network_access: NetworkAccess::Restricted }
        }
    } else if writable_roots(p.file_system.entries, cwd).len() == 0 {
        SandboxPolicyView::ReadOnly { network_access: net }
    } else {
        SandboxPolicyView::WorkspaceWrite {
            writable_roots: writable_roots(p.file_system.entries, cwd),
            network_access: net,
            exclude_tmpdir_env_var: false,
            exclude_slash_tmp: false,
        }
    }
}

/// Applies the optional [`AdditionalPermissionProfile`] overrides on top of a
/// base [`PermissionProfile`].
pub fn effective_permission_profile(
    base: &PermissionProfile,
    overrides: Option<&AdditionalPermissionProfile>,
) -> (r: PermissionProfile)
    ensures
        r@ == effective_profile(
            base@,
            match overrides {
                Some(o) => Some(o@),
                None => None,
            },
        ),
{
    let mut out = base.duplicate();
    if let Some(o) = overrides {
        if let Some(fs) = &o.file_system {
            out.file_system = fs.duplicate();
        }
        if let Some(n) = o.network {
            out.network = n;
        }
    }
    out
}

/// Whether the platform sandbox should be required for the given runtime
/// policies: anything more restrictive than "unrestricted FS + enabled
/// network", or any managed-network requirement, calls for it.
pub fn should_require_platform_sandbox(
    file_system_policy: &FileSystemSandboxPolicy,
    network_policy: NetworkSandboxPolicy,
    has_managed_network_requirements: bool,
) -> (r: bool)
    ensures
        r == spec_requires_platform_sandbox(
            file_system_policy@,
            network_policy,
            has_managed_network_requirements,
        ),
{
    if has_managed_network_requirements {
        return true;
    }
    !file_system_policy.has_full_disk_write_access() || !network_policy.is_enabled()
}

fn roots_to_paths(roots: Vec<WritableRoot>) -> (r: Vec<AbsolutePathBuf>)
    ensures
        paths_view(r@) == roots_view(roots@),
{
    let mut out: Vec<AbsolutePathBuf> = Vec::new();
    let mut i: usize = 0;
    while i < roots.len()
        invariant
            i <= roots@.len(),
            out@.len() == i,
            forall|j: int| 0 <= j < i ==> #[trigger] out@[j]@ == roots@[j].root@,
        decreases roots@.len() - i,
    {
        out.push(roots[i].root.clone_path());
        i = i + 1;
    }
    assert(paths_view(out@) =~= roots_view(roots@));
    out
}

/// Best-effort mapping from a [`PermissionProfile`] back to a legacy
/// [`SandboxPolicy`]: full write access becomes full access (or an external
/// sandbox without network), no writable roots becomes read-only, anything
/// else becomes workspace-write over the profile's writable roots.
pub fn permission_profile_to_legacy_sandbox_policy(
    profile: &PermissionProfile,
    cwd: &str,
) -> (r: Result<SandboxPolicy, String>)
    ensures
        r matches Ok(p) && p@ == legacy_policy(profile@, cwd@),
{
    let net = profile.network.is_enabled();
    if profile.file_system.has_full_disk_write_access() {
        return Ok(
            if net {
                SandboxPolicy::DangerFullAccess
            } else {
                SandboxPolicy::ExternalSandbox { network_access: NetworkAccess::Restricted }
            },
        );
    }
    let roots = profile.file_system.get_writable_roots_with_cwd(cwd);
    if roots.len() == 0 {
        return Ok(SandboxPolicy::ReadOnly { network_access: net });
    }
    let writable_roots = roots_to_paths(roots);
    Ok(
        SandboxPolicy::WorkspaceWrite {
            writable_roots,
            network_access: net,
            exclude_tmpdir_env_var: false,
            exclude_slash_tmp: false,
        },
    )
}

} // verus!

verus! {

/// Applying the same overrides twice is applying them once.
pub proof fn law_effective_profile_idempotent(
    base: PermissionProfileView,
    overrides: Option<AdditionalPermissionProfileView>,
)
    ensures
        effective_profile(effective_profile(base, overrides), overrides) == effective_profile(
            base,
            overrides,
        ),
{
}

/// Each override that is present replaces its part of the base profile,
/// whatever the other override is; a part without an override keeps the
/// base's; and applying both overrides at once is applying the file-system
/// one and then the network one.
pub proof fn law_effective_profile_applies_each_override(
    base: PermissionProfileView,
    o: AdditionalPermissionProfileView,
)
    ensures
        effective_profile(base, None) == base,
        o.file_system matches Some(f) ==> effective_profile(base, Some(o)).file_system == f,
        o.file_system is None ==> effective_profile(base, Some(o)).file_system == base.file_system,
        o.network matches Some(n) ==> effective_profile(base, Some(o)).network == n,
        o.network is None ==> effective_profile(base, Some(o)).network == base.network,
        effective_profile(base, Some(o)) == effective_profile(
            effective_profile(
                base,
                Some(AdditionalPermissionProfileView { file_system: o.file_system, network: None }),
            ),
            Some(AdditionalPermissionProfileView { file_system: None, network: o.network }),
        ),
{
}

/// Every writable entry of a list that resolves to a root puts that root
/// among the list's writable roots.
proof fn lemma_writable_entry_is_root(
    entries: Seq<crate::policy::FileSystemSandboxEntryView>,
    cwd: Seq<char>,
    i: int,
)
    requires
        0 <= i < entries.len(),
        entries[i].access == FileSystemAccessMode::Write,
        resolve_entry_path(entries[i].path, cwd) is Some,
    ensures
        writable_roots(entries, cwd).contains(resolve_entry_path(entries[i].path, cwd)->Some_0),
    decreases entries.len(),
{
    let r = resolve_entry_path(entries[i].path, cwd)->Some_0;
    let prev = writable_roots(entries.drop_last(), cwd);
    if i == entries.len() - 1 {
        assert(writable_roots(entries, cwd) == prev.push(r));
        assert(prev.push(r)[prev.len() as int] == r);
    } else {
        assert(entries.drop_last()[i] == entries[i]);
        lemma_writable_entry_is_root(entries.drop_last(), cwd, i);
        let k = choose|k: int| 0 <= k < prev.len() && prev[k] == r;
        let all = writable_roots(entries, cwd);
        assert(all == prev || all == prev.push(all.last()));
        if all != prev {
            assert(all[k] == prev[k]);
        }
    }
}

/// Whether `root` is what some writable entry of the list resolves to.
pub open spec fn from_writable_entry(
    entries: Seq<crate::policy::FileSystemSandboxEntryView>,
    cwd: Seq<char>,
    root: Seq<char>,
) -> bool {
    exists|i: int|
        #![trigger entries[i]]
        0 <= i < entries.len() && entries[i].access == FileSystemAccessMode::Write
            && resolve_entry_path(entries[i].path, cwd) == Some(root)
}

/// Every writable root of a list comes from a writable entry of it.
proof fn lemma_root_from_writable_entry(
    entries: Seq<crate::policy::FileSystemSandboxEntryView>,
    cwd: Seq<char>,
    j: int,
)
    requires
        0 <= j < writable_roots(entries, cwd).len(),
    ensures
        from_writable_entry(entries, cwd, writable_roots(entries, cwd)[j]),
    decreases entries.len(),
{
    let init = entries.drop_last();
    let prev = writable_roots(init, cwd);
    if j < prev.len() {
        assert(writable_roots(entries, cwd)[j] == prev[j]);
        lemma_root_from_writable_entry(init, cwd, j);
        let i = choose|i: int|
            #![trigger init[i]]
            0 <= i < init.len() && init[i].access == FileSystemAccessMode::Write
                && resolve_entry_path(init[i].path, cwd) == Some(prev[j]);
        assert(entries[i] == init[i]);
        assert(from_writable_entry(entries, cwd, prev[j]));
    } else {
        let i = entries.len() - 1;
        assert(entries[i] == entries.last());
    }
}

/// A profile without full write access keeps every one of its writable
/// roots under the legacy policy: the legacy policy is read-only when there
/// are none, and otherwise workspace-write over exactly those roots, in entry
/// order, so each writable entry's root is among them; and each of those
/// roots comes from a writable entry.
pub proof fn law_legacy_policy_keeps_writable_roots(p: PermissionProfileView, cwd: Seq<char>)
    requires
        !spec_full_disk_write(p.file_system),
    ensures
        legacy_policy(p, cwd) is ReadOnly || legacy_policy(p, cwd) is WorkspaceWrite,
        legacy_policy(p, cwd) is ReadOnly ==> writable_roots(p.file_system.entries, cwd).len()
            == 0,
        legacy_policy(p, cwd) matches SandboxPolicyView::WorkspaceWrite { writable_roots: w, .. }
            ==> w == writable_roots(p.file_system.entries, cwd),
        forall|j: int|
            0 <= j < writable_roots(p.file_system.entries, cwd).len() ==> from_writable_entry(
                p.file_system.entries,
                cwd,
                #[trigger] writable_roots(p.file_system.entries, cwd)[j],
            ),
        forall|i: int|
            #![trigger p.file_system.entries[i]]
            0 <= i < p.file_system.entries.len() && p.file_system.entries[i].access
                == FileSystemAccessMode::Write && resolve_entry_path(
                p.file_system.entries[i].path,
                cwd,
            ) is Some ==> (legacy_policy(p, cwd) matches SandboxPolicyView::WorkspaceWrite {
                writable_roots: w,
                ..
            } && w.contains(resolve_entry_path(p.file_system.entries[i].path, cwd)->Some_0)),
{
    assert forall|i: int|
        #![trigger p.file_system.entries[i]]
        0 <= i < p.file_system.entries.len() && p.file_system.entries[i].access
            == FileSystemAccessMode::Write && resolve_entry_path(
            p.file_system.entries[i].path,
            cwd,
        ) is Some implies (legacy_policy(p, cwd) matches SandboxPolicyView::WorkspaceWrite {
        writable_roots: w,
        ..
    } && w.contains(resolve_entry_path(p.file_system.entries[i].path, cwd)->Some_0)) by {
        lemma_writable_entry_is_root(p.file_system.entries, cwd, i);
    }
    assert forall|j: int|
        0 <= j < writable_roots(p.file_system.entries, cwd).len() implies from_writable_entry(
        p.file_system.entries,
        cwd,
        #[trigger] writable_roots(p.file_system.entries, cwd)[j],
    ) by {
        lemma_root_from_writable_entry(p.file_system.entries, cwd, j);
    }
}

/// The legacy policy a profile maps to leaves the network open exactly when
/// the profile enables the network.
pub proof fn law_legacy_policy_keeps_network(p: PermissionProfileView, cwd: Seq<char>)
    ensures
        crate::policy::spec_full_network_access(legacy_policy(p, cwd)) == (p.network
            == NetworkSandboxPolicy::Enabled),
{
}

} // verus!
