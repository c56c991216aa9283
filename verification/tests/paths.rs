use remotefs_smb::{absolutize, backslash_join, full_path, is_absolute_path, join_path};

#[test]
fn should_recognize_absolute_paths() {
    assert!(is_absolute_path("/"));
    assert!(is_absolute_path("/cargo-test/a.txt"));
    assert!(!is_absolute_path(""));
    assert!(!is_absolute_path("a.txt"));
    assert!(!is_absolute_path("aaa/bbbb/ccc/b.txt"));
}

#[test]
fn should_keep_absolute_targets_unchanged() {
    assert_eq!(absolutize("/cargo-test", "/tmp/a.txt").as_str(), "/tmp/a.txt");
    assert_eq!(absolutize("/", "/cargo-test/").as_str(), "/cargo-test/");
}

#[test]
fn should_resolve_relative_targets_under_the_working_directory() {
    assert_eq!(absolutize("/", "a.txt").as_str(), "/a.txt");
    assert_eq!(absolutize("/cargo-test", "a.txt").as_str(), "/cargo-test/a.txt");
    assert_eq!(absolutize("/cargo-test/", "a.txt").as_str(), "/cargo-test/a.txt");
}

#[test]
fn should_leave_relative_targets_alone_without_a_working_directory() {
    assert_eq!(absolutize("", "a.txt").as_str(), "a.txt");
}

#[test]
fn should_join_with_a_single_separator() {
    assert_eq!(join_path("/cargo-test", "a.txt").as_str(), "/cargo-test/a.txt");
    assert_eq!(join_path("/cargo-test/", "a.txt").as_str(), "/cargo-test/a.txt");
    assert_eq!(join_path("", "a.txt").as_str(), "/a.txt");
}

#[test]
fn should_join_backslash_paths() {
    assert_eq!(backslash_join("\\dir", "a.txt").as_str(), "\\dir\\a.txt");
    assert_eq!(backslash_join("\\dir\\", "a.txt").as_str(), "\\dir\\a.txt");
}

#[test]
fn should_build_full_paths_on_a_mapped_drive() {
    let unc = "\\\\localhost\\temp";
    assert_eq!(
        full_path(unc, "\\", "a.txt").as_str(),
        "\\\\localhost\\temp\\a.txt"
    );
    assert_eq!(
        full_path(unc, "\\dir", "a.txt").as_str(),
        "\\\\localhost\\temp\\dir\\a.txt"
    );
    assert_eq!(
        full_path(unc, "\\dir", "\\other\\b.txt").as_str(),
        "\\\\localhost\\temp\\other\\b.txt"
    );
}
