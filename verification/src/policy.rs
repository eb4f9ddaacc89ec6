//! Policy types: what a sandboxed command may read, write and reach.
//!
//! A [`PermissionProfile`] pairs a [`FileSystemSandboxPolicy`] with a
//! [`NetworkSandboxPolicy`]. [`SandboxPolicy`] is the older, coarser shape
//! still consumed by the Windows engine.

use vstd::prelude::*;
use crate::path::AbsolutePathBuf;
use crate::path_model::{absolutized, has_root, normalize, path_within};

verus! {

/// Whether the sandboxed command may use the network.
#[derive(Debug, Clone, Copy, PartialEq, Eq, Structural)]
pub enum NetworkSandboxPolicy {
    Restricted,
    Enabled,
}

impl NetworkSandboxPolicy {
    pub fn is_enabled(&self) -> (r: bool)
        ensures
            r == (*self == NetworkSandboxPolicy::Enabled),
    {
        match self {
            NetworkSandboxPolicy::Enabled => true,
            NetworkSandboxPolicy::Restricted => false,
        }
    }
}

/// Network access as the legacy policy expresses it.
#[derive(Debug, Clone, Copy, PartialEq, Eq, Structural)]
pub enum NetworkAccess {
    Restricted,
    Enabled,
}

impl NetworkAccess {
    pub fn is_enabled(&self) -> (r: bool)
        ensures
            r == (*self == NetworkAccess::Enabled),
    {
        match self {
            NetworkAccess::Enabled => true,
            NetworkAccess::Restricted => false,
        }
    }
}

/// How strongly the Windows engine isolates a command.
#[derive(Debug, Clone, Copy, PartialEq, Eq, Structural)]
pub enum WindowsSandboxLevel {
    Disabled,
    RestrictedToken,
    Elevated,
}

/// What may be done under a path.
#[derive(Debug, Clone, Copy, PartialEq, Eq, Structural)]
pub enum FileSystemAccessMode {
    Read,
    Write,
    Deny,
}

impl FileSystemAccessMode {
    pub fn can_write(&self) -> (r: bool)
        ensures
            r == (*self == FileSystemAccessMode::Write),
    {
        match self {
            FileSystemAccessMode::Write => true,
            _ => false,
        }
    }

    pub fn can_read(&self) -> (r: bool)
        ensures
            r == (*self != FileSystemAccessMode::Deny),
    {
        match self {
            FileSystemAccessMode::Deny => false,
            _ => true,
        }
    }
}

/// Paths that are named by their role rather than spelled out.
#[derive(Debug, Clone, Copy, PartialEq, Eq, Structural)]
pub enum FileSystemSpecialPath {
    /// The file system root, `/`.
    Root,
    /// The minimal set of platform paths a process needs to start.
    Minimal,
    /// The working directory the policy is resolved against.
    CurrentWorkingDirectory,
    /// `/tmp`.
    SlashTmp,
}

/// A path named by a policy entry.
#[derive(Debug)]
pub enum FileSystemPath {
    Path { path: AbsolutePathBuf },
    Special { value: FileSystemSpecialPath },
}

/// The plain value of a [`FileSystemPath`].
pub enum FileSystemPathView {
    Path(Seq<char>),
    Special(FileSystemSpecialPath),
}

impl View for FileSystemPath {
    type V = FileSystemPathView;

    open spec fn view(&self) -> FileSystemPathView {
        match self {
            FileSystemPath::Path { path } => FileSystemPathView::Path(path@),
            FileSystemPath::Special { value } => FileSystemPathView::Special(*value),
        }
    }
}

impl FileSystemPath {
    pub fn duplicate(&self) -> (r: Self)
        ensures
            r@ == self@,
    {
        match self {
            FileSystemPath::Path { path } => FileSystemPath::Path { path: path.clone_path() },
            FileSystemPath::Special { value } => FileSystemPath::Special { value: *value },
        }
    }
}

/// One rule of a file-system policy.
#[derive(Debug)]
pub struct FileSystemSandboxEntry {
    pub path: FileSystemPath,
    pub access: FileSystemAccessMode,
}

/// The plain value of a [`FileSystemSandboxEntry`].
pub struct FileSystemSandboxEntryView {
    pub path: FileSystemPathView,
    pub access: FileSystemAccessMode,
}

impl View for FileSystemSandboxEntry {
    type V = FileSystemSandboxEntryView;

    open spec fn view(&self) -> FileSystemSandboxEntryView {
        FileSystemSandboxEntryView { path: self.path@, access: self.access }
    }
}

impl FileSystemSandboxEntry {
    pub fn duplicate(&self) -> (r: Self)
        ensures
            r@ == self@,
    {
        FileSystemSandboxEntry { path: self.path.duplicate(), access: self.access }
    }
}

/// Whether file-system access is restricted by the entries, not restricted
/// at all, or left to an enclosing sandbox.
#[derive(Debug, Clone, Copy, PartialEq, Eq, Structural)]
pub enum FileSystemSandboxKind {
    Restricted,
    Unrestricted,
    ExternalSandbox,
}

/// The file-system half of a permission profile.
#[derive(Debug)]
pub struct FileSystemSandboxPolicy {
    pub kind: FileSystemSandboxKind,
    pub entries: Vec<FileSystemSandboxEntry>,
}

/// The plain value of a [`FileSystemSandboxPolicy`].
pub struct FileSystemSandboxPolicyView {
    pub kind: FileSystemSandboxKind,
    pub entries: Seq<FileSystemSandboxEntryView>,
}

pub open spec fn entries_view(v: Seq<FileSystemSandboxEntry>) -> Seq<FileSystemSandboxEntryView> {
    v.map_values(|e: FileSystemSandboxEntry| e@)
}

impl View for FileSystemSandboxPolicy {
    type V = FileSystemSandboxPolicyView;

    open spec fn view(&self) -> FileSystemSandboxPolicyView {
        FileSystemSandboxPolicyView { kind: self.kind, entries: entries_view(self.entries@) }
    }
}

/// A directory under which writes are allowed.
#[derive(Debug)]
pub struct WritableRoot {
    pub root: AbsolutePathBuf,
}

/// Full write access to the whole disk: an unrestricted (or externally
/// sandboxed) policy, or a restricted one that lets the root be written.
pub open spec fn spec_full_disk_write(p: FileSystemSandboxPolicyView) -> bool {
    ||| p.kind != FileSystemSandboxKind::Restricted
    ||| exists|i: int|
        0 <= i < p.entries.len() && #[trigger] p.entries[i].path == FileSystemPathView::Special(
            FileSystemSpecialPath::Root,
        ) && p.entries[i].access == FileSystemAccessMode::Write
}

/// The directory an entry's path names, given the working directory, if it
/// names one: the root, the working directory (when absolute), `/tmp`, or a
/// spelled-out path; the minimal platform set names no single directory.
pub open spec fn resolve_entry_path(p: FileSystemPathView, cwd: Seq<char>) -> Option<Seq<char>> {
    match p {
        FileSystemPathView::Path(s) => Some(s),
        FileSystemPathView::Special(FileSystemSpecialPath::Root) => Some(seq!['/']),
        FileSystemPathView::Special(FileSystemSpecialPath::SlashTmp) => Some("/tmp"@),
        FileSystemPathView::Special(FileSystemSpecialPath::CurrentWorkingDirectory) => if has_root(
            cwd,
        ) {
            Some(normalize(cwd))
        } else {
            None
        },
        FileSystemPathView::Special(FileSystemSpecialPath::Minimal) => None,
    }
}

/// The writable roots of a list of entries, in entry order.
pub open spec fn writable_roots(entries: Seq<FileSystemSandboxEntryView>, cwd: Seq<char>) -> Seq<
    Seq<char>,
>
    decreases entries.len(),
{
    if entries.len() == 0 {
        seq![]
    } else {
        let prev = writable_roots(entries.drop_last(), cwd);
        let e = entries.last();
        if e.access == FileSystemAccessMode::Write {
            match resolve_entry_path(e.path, cwd) {
                Some(r) => prev.push(r),
                None => prev,
            }
        } else {
            prev
        }
    }
}

/// Whether `path` (resolved against `cwd`) may be written under the policy.
pub open spec fn spec_can_write_path(p: FileSystemSandboxPolicyView, path: Seq<char>, cwd: Seq<char>) -> bool {
    ||| spec_full_disk_write(p)
    ||| exists|i: int|
        0 <= i < writable_roots(p.entries, cwd).len() && path_within(
            absolutized(path, cwd),
            #[trigger] writable_roots(p.entries, cwd)[i],
        )
}

pub open spec fn roots_view(v: Seq<WritableRoot>) -> Seq<Seq<char>> {
    v.map_values(|r: WritableRoot| r.root@)
}

impl FileSystemSandboxPolicy {
    /// A copy of the policy.
    pub fn duplicate(&self) -> (r: Self)
        ensures
            r@ == self@,
    {
        let mut entries: Vec<FileSystemSandboxEntry> = Vec::new();
        let mut i: usize = 0;
        while i < self.entries.len()
            invariant
                i <= self.entries@.len(),
                entries@.len() == i,
                forall|j: int| 0 <= j < i ==> #[trigger] entries@[j]@ == self.entries@[j]@,
            decreases self.entries@.len() - i,
        {
            entries.push(self.entries[i].duplicate());
            i = i + 1;
        }
        let r = FileSystemSandboxPolicy { kind: self.kind, entries };
        assert(entries_view(r.entries@) =~= entries_view(self.entries@));
        r
    }

    /// Whether every path may be written.
    pub fn has_full_disk_write_access(&self) -> (r: bool)
        ensures
            r == spec_full_disk_write(self@),
    {
        match self.kind {
            FileSystemSandboxKind::Restricted => {},
            _ => return true,
        }
        let mut i: usize = 0;
        while i < self.entries.len()
            invariant
                self.kind == FileSystemSandboxKind::Restricted,
                i <= self.entries@.len(),
                forall|j: int|
                    0 <= j < i ==> !(#[trigger] entries_view(self.entries@)[j].path
                        == FileSystemPathView::Special(FileSystemSpecialPath::Root)
                        && entries_view(self.entries@)[j].access == FileSystemAccessMode::Write),
            decreases self.entries@.len() - i,
        {
            let e = &self.entries[i];
            let is_root = match &e.path {
                FileSystemPath::Special { value: FileSystemSpecialPath::Root } => true,
                _ => false,
            };
            if is_root && e.access.can_write() {
                assert(entries_view(self.entries@)[i as int] == e@);
                assert(self@.entries[i as int].path == FileSystemPathView::Special(
                    FileSystemSpecialPath::Root,
                ));
                return true;
            }
            i = i + 1;
        }
        false
    }

    /// The directories that entries grant write access to, resolved
    /// against `cwd`, in entry order.
    pub fn get_writable_roots_with_cwd(&self, cwd: &str) -> (r: Vec<WritableRoot>)
        ensures
            roots_view(r@) == writable_roots(self@.entries, cwd@),
    {
        let ghost ev = entries_view(self.entries@);
        let mut out: Vec<WritableRoot> = Vec::new();
        let mut i: usize = 0;
        assert(ev.take(0) =~= Seq::<FileSystemSandboxEntryView>::empty());
        assert(roots_view(out@) =~= Seq::<Seq<char>>::empty());
        while i < self.entries.len()
            invariant
                i <= self.entries@.len(),
                ev == entries_view(self.entries@),
                roots_view(out@) == writable_roots(ev.take(i as int), cwd@),
            decreases self.entries@.len() - i,
        {
            let e = &self.entries[i];
            assert(ev.take(i + 1).drop_last() =~= ev.take(i as int));
            assert(ev.take(i + 1).last() == e@);
            if e.access.can_write() {
                let resolved: Option<AbsolutePathBuf> = match &e.path {
                    FileSystemPath::Path { path } => Some(path.clone_path()),
                    FileSystemPath::Special { value } => match value {
                        FileSystemSpecialPath::Root => {
                            let r = AbsolutePathBuf::from_absolute_path_checked("/");
                            proof {
                                reveal_strlit("/");
                                assert("/"@ =~= seq!['/']);
                                lemma_normalize_root();
                            }
                            match r {
                                Ok(p) => {
                                    assert(p@ == seq!['/']);
                                    Some(p)
                                },
                                Err(_) => None,
                            }
                        },
                        FileSystemSpecialPath::SlashTmp => {
                            let r = AbsolutePathBuf::from_absolute_path_checked("/tmp");
                            proof {
                                reveal_strlit("/tmp");
                                lemma_normalize_tmp();
                            }
                            match r {
                                Ok(p) => Some(p),
                                Err(_) => None,
                            }
                        },
                        FileSystemSpecialPath::CurrentWorkingDirectory => {
                            match AbsolutePathBuf::from_absolute_path_checked(cwd) {
                                Ok(p) => Some(p),
                                Err(_) => None,
                            }
                        },
                        FileSystemSpecialPath::Minimal => None,
                    },
                };
                assert(resolved matches Some(p) ==> resolve_entry_path(e@.path, cwd@) == Some(
                    p@,
                ));
                assert(resolved is None ==> resolve_entry_path(e@.path, cwd@) is None);
                match resolved {
                    Some(p) => {
                        let ghost pv = p@;
                        let ghost before = out@;
                        out.push(WritableRoot { root: p });
                        assert(roots_view(out@) =~= roots_view(before).push(pv));
                    },
                    None => {},
                }
            }
            i = i + 1;
        }
        assert(ev.take(self.entries@.len() as int) =~= ev);
        out
    }

    /// Whether `path` (relative paths are taken against `cwd`) may be written.
    pub fn can_write_path_with_cwd(&self, path: &str, cwd: &str) -> (r: bool)
        ensures
            r == spec_can_write_path(self@, path@, cwd@),
    {
        if self.has_full_disk_write_access() {
            return true;
        }
        if !crate::path::is_absolute_path(path) && !crate::path::is_absolute_path(cwd) {
            proof {
                crate::path::lemma_joined_root(path@, cwd@);
            }
            return false;
        }
        let roots = self.get_writable_roots_with_cwd(cwd);
        let target = AbsolutePathBuf::resolve_path_against_base(path, cwd);
        let mut i: usize = 0;
        while i < roots.len()
            invariant
                i <= roots@.len(),
                roots_view(roots@) == writable_roots(self@.entries, cwd@),
                target@ == absolutized(path@, cwd@),
                forall|j: int|
                    0 <= j < i ==> !path_within(
                        absolutized(path@, cwd@),
                        #[trigger] writable_roots(self@.entries, cwd@)[j],
                    ),
            decreases roots@.len() - i,
        {
            assert(roots_view(roots@)[i as int] == roots@[i as int].root@);
            if target.is_within(&roots[i].root) {
                return true;
            }
            i = i + 1;
        }
        false
    }
}

proof fn lemma_normalize_root()
    ensures
        normalize(seq!['/']) == seq!['/'],
{
    crate::path_model::lemma_components_render(true, Seq::<Seq<char>>::empty());
    assert(crate::path_model::render(true, Seq::<Seq<char>>::empty()) =~= seq!['/']);
}

proof fn lemma_normalize_tmp()
    ensures
        normalize("/tmp"@) == "/tmp"@,
{
    reveal_strlit("/tmp");
    let cs = seq![seq!['t', 'm', 'p']];
    assert(crate::path_model::is_plain_name(cs[0])) by {
        reveal_strlit("..");
    }
    crate::path_model::lemma_components_render(true, cs);
    crate::path_model::lemma_resolve_identity(cs);
    assert(crate::path_model::render(true, cs) =~= "/tmp"@);
}

} // verus!

verus! {

/// What a sandboxed command may do: file-system access and network access.
#[derive(Debug)]
pub struct PermissionProfile {
    pub file_system: FileSystemSandboxPolicy,
    pub network: NetworkSandboxPolicy,
}

/// The plain value of a [`PermissionProfile`].
pub struct PermissionProfileView {
    pub file_system: FileSystemSandboxPolicyView,
    pub network: NetworkSandboxPolicy,
}

impl View for PermissionProfile {
    type V = PermissionProfileView;

    open spec fn view(&self) -> PermissionProfileView {
        PermissionProfileView { file_system: self.file_system@, network: self.network }
    }
}

/// Per-call overrides of a base profile; `None` keeps the base's setting.
#[derive(Debug)]
pub struct AdditionalPermissionProfile {
    pub file_system: Option<FileSystemSandboxPolicy>,
    pub network: Option<NetworkSandboxPolicy>,
}

/// The plain value of an [`AdditionalPermissionProfile`].
pub struct AdditionalPermissionProfileView {
    pub file_system: Option<FileSystemSandboxPolicyView>,
    pub network: Option<NetworkSandboxPolicy>,
}

impl View for AdditionalPermissionProfile {
    type V = AdditionalPermissionProfileView;

    open spec fn view(&self) -> AdditionalPermissionProfileView {
        AdditionalPermissionProfileView {
            file_system: match self.file_system {
                Some(f) => Some(f@),
                None => None,
            },
            network: self.network,
        }
    }
}

impl PermissionProfile {
    /// A copy of the profile.
    pub fn duplicate(&self) -> (r: Self)
        ensures
            r@ == self@,
    {
        PermissionProfile { file_system: self.file_system.duplicate(), network: self.network }
    }

    /// No file-system restriction and network enabled.
    pub fn unrestricted() -> (r: Self)
        ensures
            r@.file_system.kind == FileSystemSandboxKind::Unrestricted,
            r@.file_system.entries.len() == 0,
            r@.network == NetworkSandboxPolicy::Enabled,
    {
        PermissionProfile {
            file_system: FileSystemSandboxPolicy {
                kind: FileSystemSandboxKind::Unrestricted,
                entries: Vec::new(),
            },
            network: NetworkSandboxPolicy::Enabled,
        }
    }

    /// Read access to the whole disk, no writes, no network.
    pub fn read_only() -> (r: Self)
        ensures
            r@.file_system.kind == FileSystemSandboxKind::Restricted,
            r@.file_system.entries == seq![
                FileSystemSandboxEntryView {
                    path: FileSystemPathView::Special(FileSystemSpecialPath::Root),
                    access: FileSystemAccessMode::Read,
                },
            ],
            r@.network == NetworkSandboxPolicy::Restricted,
    {
        let mut entries: Vec<FileSystemSandboxEntry> = Vec::new();
        entries.push(
            FileSystemSandboxEntry {
                path: FileSystemPath::Special { value: FileSystemSpecialPath::Root },
                access: FileSystemAccessMode::Read,
            },
        );
        let r = PermissionProfile {
            file_system: FileSystemSandboxPolicy { kind: FileSystemSandboxKind::Restricted, entries },
            network: NetworkSandboxPolicy::Restricted,
        };
        assert(r@.file_system.entries =~= seq![
            FileSystemSandboxEntryView {
                path: FileSystemPathView::Special(FileSystemSpecialPath::Root),
                access: FileSystemAccessMode::Read,
            },
        ]);
        r
    }

    /// Read access to the whole disk, write access under `cwd`, no network.
    pub fn workspace_write(cwd: &AbsolutePathBuf) -> (r: Self)
        ensures
            r@.file_system.kind == FileSystemSandboxKind::Restricted,
            r@.file_system.entries == seq![
                FileSystemSandboxEntryView {
                    path: FileSystemPathView::Special(FileSystemSpecialPath::Root),
                    access: FileSystemAccessMode::Read,
                },
                FileSystemSandboxEntryView {
                    path: FileSystemPathView::Path(cwd@),
                    access: FileSystemAccessMode::Write,
                },
            ],
            r@.network == NetworkSandboxPolicy::Restricted,
    {
        let mut entries: Vec<FileSystemSandboxEntry> = Vec::new();
        entries.push(
            FileSystemSandboxEntry {
                path: FileSystemPath::Special { value: FileSystemSpecialPath::Root },
                access: FileSystemAccessMode::Read,
            },
        );
        entries.push(
            FileSystemSandboxEntry {
                path: FileSystemPath::Path { path: cwd.clone_path() },
                access: FileSystemAccessMode::Write,
            },
        );
        let r = PermissionProfile {
            file_system: FileSystemSandboxPolicy { kind: FileSystemSandboxKind::Restricted, entries },
            network: NetworkSandboxPolicy::Restricted,
        };
        assert(r@.file_system.entries =~= seq![
            FileSystemSandboxEntryView {
                path: FileSystemPathView::Special(FileSystemSpecialPath::Root),
                access: FileSystemAccessMode::Read,
            },
            FileSystemSandboxEntryView {
                path: FileSystemPathView::Path(cwd@),
                access: FileSystemAccessMode::Write,
            },
        ]);
        r
    }

    /// The runtime policies the engines consume: the two halves of the profile.
    pub fn to_runtime_permissions(&self) -> (r: (FileSystemSandboxPolicy, NetworkSandboxPolicy))
        ensures
            r.0@ == self@.file_system,
            r.1 == self@.network,
    {
        (self.file_system.duplicate(), self.network)
    }

    /// The legacy [`SandboxPolicy`] this profile maps to.
    pub fn to_legacy_sandbox_policy(&self, cwd: &str) -> (r: Result<SandboxPolicy, String>)
        ensures
            r matches Ok(p) && p@ == crate::policy_transforms::legacy_policy(self@, cwd@),
    {
        crate::policy_transforms::permission_profile_to_legacy_sandbox_policy(self, cwd)
    }
}

/// The legacy policy shape.
#[derive(Debug)]
#[allow(inconsistent_fields)]
pub enum SandboxPolicy {
    /// No restrictions at all.
    DangerFullAccess,
    /// Read everything, write nothing.
    ReadOnly { network_access: bool },
    /// Restrictions are enforced by an enclosing sandbox.
    ExternalSandbox { network_access: NetworkAccess },
    /// Read everything, write under the given roots.
    WorkspaceWrite {
        writable_roots: Vec<AbsolutePathBuf>,
        network_access: bool,
        exclude_tmpdir_env_var: bool,
        exclude_slash_tmp: bool,
    },
}

/// The plain value of a [`SandboxPolicy`].
#[allow(inconsistent_fields)]
pub enum SandboxPolicyView {
    DangerFullAccess,
    ReadOnly { network_access: bool },
    ExternalSandbox { network_access: NetworkAccess },
    WorkspaceWrite {
        writable_roots: Seq<Seq<char>>,
        network_access: bool,
        exclude_tmpdir_env_var: bool,
        exclude_slash_tmp: bool,
    },
}

pub open spec fn paths_view(v: Seq<AbsolutePathBuf>) -> Seq<Seq<char>> {
    v.map_values(|p: AbsolutePathBuf| p@)
}

impl View for SandboxPolicy {
    type V = SandboxPolicyView;

    open spec fn view(&self) -> SandboxPolicyView {
        match self {
            SandboxPolicy::DangerFullAccess => SandboxPolicyView::DangerFullAccess,
            SandboxPolicy::ReadOnly { network_access } => SandboxPolicyView::ReadOnly {
                network_access: *network_access,
            },
            SandboxPolicy::ExternalSandbox { network_access } => SandboxPolicyView::ExternalSandbox {
                network_access: *network_access,
            },
            SandboxPolicy::WorkspaceWrite {
                writable_roots,
                network_access,
                exclude_tmpdir_env_var,
                exclude_slash_tmp,
            } => SandboxPolicyView::WorkspaceWrite {
                writable_roots: paths_view(writable_roots@),
                network_access: *network_access,
                exclude_tmpdir_env_var: *exclude_tmpdir_env_var,
                exclude_slash_tmp: *exclude_slash_tmp,
            },
        }
    }
}

/// Whether a legacy policy leaves the network fully open.
pub open spec fn spec_full_network_access(p: SandboxPolicyView) -> bool {
    match p {
        SandboxPolicyView::DangerFullAccess => true,
        SandboxPolicyView::ReadOnly { network_access } => network_access,
        SandboxPolicyView::ExternalSandbox { network_access } => network_access
            == NetworkAccess::Enabled,
        SandboxPolicyView::WorkspaceWrite { network_access, .. } => network_access,
    }
}

impl SandboxPolicy {
    /// Read-only access without network.
    pub fn new_read_only_policy() -> (r: Self)
        ensures
            r@ == (SandboxPolicyView::ReadOnly { network_access: false }),
    {
        SandboxPolicy::ReadOnly { network_access: false }
    }

    /// Whether the network is fully open under this policy.
    pub fn has_full_network_access(&self) -> (r: bool)
        ensures
            r == spec_full_network_access(self@),
    {
        match self {
            SandboxPolicy::DangerFullAccess => true,
            SandboxPolicy::ReadOnly { network_access } => *network_access,
            SandboxPolicy::ExternalSandbox { network_access } => network_access.is_enabled(),
            SandboxPolicy::WorkspaceWrite { network_access, .. } => *network_access,
        }
    }
}

} // verus!
