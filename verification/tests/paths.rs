use rattler_sandbox::windows_path::path_with_base_windows;
use rattler_sandbox::path::{
    choose_existing_preserving_symlinks, choose_preserving_symlinks, symlink_forces_logical_path,
    file_name, is_absolute_path, is_windows_drive_absolute_path, normalize_path,
    normalize_windows_device_path, test_absolute, test_path_buf,
};
use rattler_sandbox::{AbsolutePathBuf, SandboxError};

#[test]
fn normalize_resolves_dots_and_separators() {
    assert_eq!(normalize_path("/a/./b//c/../d/"), "/a/b/d");
    assert_eq!(normalize_path("/.."), "/");
    assert_eq!(normalize_path("/../a"), "/a");
    assert_eq!(normalize_path("a/../.."), ".");
    assert_eq!(normalize_path("../a/b"), "a/b");
    assert_eq!(normalize_path(""), ".");
    assert_eq!(normalize_path("./"), ".");
    assert_eq!(normalize_path("//x"), "/x");
}

#[test]
fn normalize_is_idempotent_on_examples() {
    for p in ["/a/./b/../c", "x/y/..", "/", ".", "a//b"] {
        let once = normalize_path(p);
        assert_eq!(normalize_path(&once), once);
    }
}

#[test]
fn checked_constructor_rejects_relative_paths() {
    match AbsolutePathBuf::from_absolute_path_checked("relative/path") {
        Err(SandboxError::NotAbsolutePath(p)) => assert_eq!(p, "relative/path"),
        _ => panic!("relative path accepted"),
    }
    let p = AbsolutePathBuf::from_absolute_path_checked("/tmp/./x/../y").ok().unwrap();
    assert_eq!(p.as_path(), "/tmp/y");
}

#[test]
fn checked_constructor_round_trips() {
    let p = AbsolutePathBuf::from_absolute_path_checked("/a/b/../c").ok().unwrap();
    let q = AbsolutePathBuf::from_absolute_path_checked(p.as_path()).ok().unwrap();
    assert!(p == q);
}

#[test]
fn from_absolute_path_uses_current_dir_for_relative_paths() {
    let p = AbsolutePathBuf::from_absolute_path("src/../lib", "/work/dir");
    assert_eq!(p.as_path(), "/work/dir/lib");
    let q = AbsolutePathBuf::from_absolute_path("/etc/hosts", "/ignored");
    assert_eq!(q.as_path(), "/etc/hosts");
}

#[test]
fn join_and_resolve() {
    let base = test_absolute("/home/user");
    assert_eq!(base.join("project/src").as_path(), "/home/user/project/src");
    assert_eq!(base.join("../other").as_path(), "/home/other");
    assert_eq!(base.join("/abs").as_path(), "/abs");
    assert_eq!(AbsolutePathBuf::resolve_path_against_base("x", "/base/").as_path(), "/base/x");
    assert_eq!(AbsolutePathBuf::resolve_path_against_base("/abs/y", "rel").as_path(), "/abs/y");
}

#[test]
fn parent_of_join_child_is_base() {
    let base = test_absolute("/var/lib");
    let child = base.join("cache");
    assert!(child.parent().unwrap() == base);
}

#[test]
fn parent_and_ancestors() {
    let p = test_absolute("/a/b/c");
    assert_eq!(p.parent().unwrap().as_path(), "/a/b");
    assert!(test_absolute("/").parent().is_none());
    assert_eq!(test_absolute("/a").parent().unwrap().as_path(), "/");
    let all: Vec<String> = p.ancestors().iter().map(|a| a.to_path_buf()).collect();
    assert_eq!(all, vec!["/a/b/c", "/a/b", "/a", "/"]);
}

#[test]
fn accessors_return_the_path() {
    let p = test_absolute("/srv/data");
    assert_eq!(p.as_path(), "/srv/data");
    assert_eq!(p.to_path_buf(), "/srv/data");
    assert_eq!(p.to_string_lossy(), "/srv/data");
    assert_eq!(p.display(), "/srv/data");
    assert_eq!(p.clone().into_path_buf(), "/srv/data");
    assert!(p.is_within(&test_absolute("/srv")));
    assert!(p.is_within(&test_absolute("/")));
    assert!(!p.is_within(&test_absolute("/srv/dat")));
}

#[test]
fn test_helpers() {
    assert_eq!(test_path_buf("/x/y"), "/x/y");
    assert_eq!(test_absolute("/x//y/").as_path(), "/x/y");
    assert!(is_absolute_path("/x"));
    assert!(!is_absolute_path("x"));
}

#[test]
fn file_names() {
    assert_eq!(file_name("/usr/bin/rattler-linux-sandbox").as_deref(), Some("rattler-linux-sandbox"));
    assert_eq!(file_name("a/b/"), Some("b".to_string()));
    assert_eq!(file_name("a/."), Some("a".to_string()));
    assert_eq!(file_name("/"), None);
    assert_eq!(file_name("a/.."), None);
    assert_eq!(file_name("."), None);
}

#[test]
fn windows_device_paths() {
    assert_eq!(normalize_windows_device_path(r"\\?\UNC\server\share").as_deref(), Some(r"\\server\share"));
    assert_eq!(normalize_windows_device_path(r"\\.\UNC\server\share").as_deref(), Some(r"\\server\share"));
    assert_eq!(normalize_windows_device_path(r"\\?\C:\dir").as_deref(), Some(r"C:\dir"));
    assert_eq!(normalize_windows_device_path(r"\\.\d:/dir").as_deref(), Some("d:/dir"));
    assert_eq!(normalize_windows_device_path(r"\\?\pipe\x"), None);
    assert_eq!(normalize_windows_device_path(r"C:\dir"), None);
    assert!(is_windows_drive_absolute_path(r"C:\x"));
    assert!(is_windows_drive_absolute_path("z:/"));
    assert!(!is_windows_drive_absolute_path("C:"));
    assert!(!is_windows_drive_absolute_path("1:/x"));
    assert!(!is_windows_drive_absolute_path("/x/y"));
}

#[test]
fn symlink_preservation_choices() {
    let l = || "/a/link/x".to_string();
    assert_eq!(choose_preserving_symlinks(l(), true, Some("/a/real/x".to_string())), "/a/link/x");
    assert_eq!(choose_preserving_symlinks(l(), false, Some("/a/real/x".to_string())), "/a/real/x");
    assert_eq!(choose_preserving_symlinks(l(), true, None), "/a/link/x");
    assert_eq!(choose_existing_preserving_symlinks(l(), true, "/private/a".to_string()), "/a/link/x");
    assert_eq!(choose_existing_preserving_symlinks(l(), false, "/private/a".to_string()), "/private/a");
    assert!(!symlink_forces_logical_path(&test_absolute("/var"), true));
    assert!(symlink_forces_logical_path(&test_absolute("/home/me"), true));
    assert!(!symlink_forces_logical_path(&test_absolute("/home/me"), false));
    assert!(!symlink_forces_logical_path(&test_absolute("/"), true));
}

#[test]
fn absolute_paths_order_by_components() {
    let a = test_absolute("/a/b");
    let b = test_absolute("/a-b");
    assert!(a < b);
    assert!(test_absolute("/a") < test_absolute("/a/b"));
}

#[test]
fn windows_path_with_base_handles_drives() {
    assert_eq!(path_with_base_windows("C:foo", "D:\\base"), "C:\\base\\foo");
    assert_eq!(path_with_base_windows("C:", "D:\\base"), "C:\\");
    assert_eq!(path_with_base_windows("x", "D:\\base"), "D:\\base\\x");
    assert_eq!(path_with_base_windows("C:\\abs", "D:\\base"), "C:\\abs");
    assert_eq!(path_with_base_windows("\\top", "D:\\base"), "D:\\top");
    assert_eq!(path_with_base_windows("x", "D:"), "D:x");
    assert_eq!(path_with_base_windows("C:.\\a/b", "D:\\base\\"), "C:\\base\\.\\a\\b");
    assert_eq!(path_with_base_windows("C:foo", "rel"), "C:rel\\foo");
}

#[test]
fn try_from_str_checks_absoluteness() {
    let p = AbsolutePathBuf::try_from("/a/./b/../c").ok().unwrap();
    assert_eq!(p.as_path(), "/a/c");
    match AbsolutePathBuf::try_from("a/b") {
        Err(SandboxError::NotAbsolutePath(t)) => assert_eq!(t, "a/b"),
        _ => panic!("relative path accepted"),
    }
}
