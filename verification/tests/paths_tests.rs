use s9pack::errors::Error;
use s9pack::paths::path_starts_with;
use s9pack::paths::validate_path;

#[test]
fn accepts_plain_relative_paths() {
    assert!(validate_path("foo").is_ok());
    assert!(validate_path("foo/bar").is_ok());
    assert!(validate_path("foo/bar/baz.txt").is_ok());
    assert!(validate_path("").is_ok());
}

#[test]
fn accepts_interior_dots_and_unicode() {
    assert!(validate_path("a..b").is_ok());
    assert!(validate_path("...").is_ok());
    assert!(validate_path("..a/b").is_ok());
    assert!(validate_path("a/b..").is_ok());
    assert!(validate_path("./x").is_ok());
    assert!(validate_path("héllo/wörld").is_ok());
    assert!(validate_path("日本語/ファイル").is_ok());
}

#[test]
fn rejects_absolute_paths() {
    assert!(validate_path("/").is_err());
    assert!(validate_path("/etc/passwd").is_err());
    assert!(validate_path("/a").is_err());
}

#[test]
fn rejects_parent_directory_segments() {
    assert!(validate_path("..").is_err());
    assert!(validate_path("../x").is_err());
    assert!(validate_path("a/../b").is_err());
    assert!(validate_path("a/..").is_err());
    assert!(validate_path("a/b/../../c").is_err());
}

#[test]
fn violation_carries_the_offending_path() {
    match validate_path("../escape") {
        Err(Error::InvalidFileName(p)) => assert_eq!(p, "../escape"),
        other => panic!("expected InvalidFileName, got {:?}", other),
    }
}

#[test]
fn path_prefix_is_segment_wise() {
    assert!(path_starts_with("a/b", "a"));
    assert!(path_starts_with("a", "a"));
    assert!(!path_starts_with("ab", "a"));
    assert!(!path_starts_with("a", "a/b"));
    assert!(path_starts_with("anything", ""));
}
