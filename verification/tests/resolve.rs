use rcm::git::RemoteUrlDescriptor;
use rcm::resolve::{
    base_directory, contains_separator, escapes_root, is_unsafe_segment, join_path,
    lowercase_host, normalize, place, relative, resolve, starts_with, ResolveError,
};

fn descriptor(host: &str, path: &str) -> RemoteUrlDescriptor {
    RemoteUrlDescriptor { host: host.to_string(), path: path.to_string() }
}

#[test]
fn resolves_below_root_host_and_path() {
    assert_eq!(
        resolve("/home/u/src", &descriptor("github.com", "foo/bar.git"), false, &None),
        Ok("/home/u/src/github.com/foo/bar".to_string())
    );
}

#[test]
fn resolve_twice_is_identical() {
    let d = descriptor("Example.ORG", "team/project.git/");
    let first = resolve("/srv", &d, false, &None);
    let second = resolve("/srv", &d, false, &None);
    assert_eq!(first, second);
    assert_eq!(first, Ok("/srv/example.org/team/project".to_string()));
}

#[test]
fn host_is_lower_cased() {
    let upper = resolve("/r", &descriptor("GitHub.com", "a/b"), false, &None);
    let lower = resolve("/r", &descriptor("github.com", "a/b"), false, &None);
    assert_eq!(upper, lower);
    assert_eq!(upper, Ok("/r/github.com/a/b".to_string()));
}

#[test]
fn git_suffix_is_dropped() {
    let with = resolve("/r", &descriptor("h", "a/b.git"), false, &None);
    let without = resolve("/r", &descriptor("h", "a/b"), false, &None);
    assert_eq!(with, without);
    assert_eq!(with, Ok("/r/h/a/b".to_string()));
}

#[test]
fn parent_segments_are_rejected() {
    assert_eq!(
        resolve("/r", &descriptor("h", "../../etc"), false, &None),
        Err(ResolveError::PathEscape)
    );
    assert_eq!(resolve("/r", &descriptor("h", "a/../b"), false, &None), Err(ResolveError::PathEscape));
    assert_eq!(resolve("/r", &descriptor("h", "a/.."), false, &None), Err(ResolveError::PathEscape));
    assert_eq!(resolve("/r", &descriptor("h", ".."), false, &None), Err(ResolveError::PathEscape));
    assert_eq!(
        resolve("/r", &descriptor("h", "a/...git"), false, &None),
        Err(ResolveError::PathEscape)
    );
}

#[test]
fn absolute_paths_are_rejected() {
    assert_eq!(resolve("/r", &descriptor("h", "/etc"), false, &None), Err(ResolveError::PathEscape));
}

#[test]
fn hosts_that_are_no_single_segment_are_rejected() {
    assert_eq!(resolve("/r", &descriptor("..", "a"), false, &None), Err(ResolveError::PathEscape));
    assert_eq!(resolve("/r", &descriptor("a/b", "c"), false, &None), Err(ResolveError::PathEscape));
}

#[test]
fn dots_that_are_no_parent_segment_pass() {
    assert_eq!(
        resolve("/r", &descriptor("h", "a/..b/c.."), false, &None),
        Ok("/r/h/a/..b/c..".to_string())
    );
    assert_eq!(resolve("/r", &descriptor("h", ".../x"), false, &None), Ok("/r/h/.../x".to_string()));
}

#[test]
fn language_directory_is_inserted_when_asked_and_known() {
    let d = descriptor("GitHub.com", "foo/bar.git");
    assert_eq!(
        resolve("/r", &d, true, &Some("rust".to_string())),
        Ok("/r/rust/github.com/foo/bar".to_string())
    );
    assert_eq!(resolve("/r", &d, true, &None), Ok("/r/github.com/foo/bar".to_string()));
    assert_eq!(
        resolve("/r", &d, false, &Some("rust".to_string())),
        Ok("/r/github.com/foo/bar".to_string())
    );
}

#[test]
fn unusable_language_tag_falls_back() {
    let d = descriptor("h", "a");
    for tag in ["", "..", "a/b", "/"] {
        assert_eq!(resolve("/r", &d, true, &Some(tag.to_string())), Ok("/r/h/a".to_string()));
        assert_eq!(base_directory("/r", true, &Some(tag.to_string())), "/r");
    }
    assert_eq!(base_directory("/r", true, &Some("go".to_string())), "/r/go");
}

#[test]
fn normalize_drops_suffixes_and_separators() {
    assert_eq!(normalize("foo/bar.git"), "foo/bar");
    assert_eq!(normalize("foo/bar"), "foo/bar");
    assert_eq!(normalize("foo/bar/"), "foo/bar");
    assert_eq!(normalize("foo/bar.git/"), "foo/bar");
    assert_eq!(normalize("foo/bar.git.git"), "foo/bar");
    assert_eq!(normalize("foo/bar.git//.git/"), "foo/bar");
    assert_eq!(normalize(".git"), "");
    assert_eq!(normalize(""), "");
    assert_eq!(normalize("git"), "git");
    assert_eq!(normalize("a.gi"), "a.gi");
    assert_eq!(normalize("a.git.x"), "a.git.x");
    assert_eq!(normalize("ünï/çødé.git"), "ünï/çødé");
}

#[test]
fn normalize_is_idempotent() {
    for p in ["foo/bar.git", "a/", ".git/.git", "x", ""] {
        let once = normalize(p);
        assert_eq!(normalize(&once), once);
        assert_eq!(normalize(&format!("{p}.git")), once);
    }
}

#[test]
fn escape_detection() {
    assert!(escapes_root(".."));
    assert!(escapes_root("../a"));
    assert!(escapes_root("a/.."));
    assert!(escapes_root("a/../b"));
    assert!(escapes_root("/a"));
    assert!(escapes_root("/"));
    assert!(!escapes_root(""));
    assert!(!escapes_root("."));
    assert!(!escapes_root("a/b"));
    assert!(!escapes_root("..."));
    assert!(!escapes_root("a../b"));
    assert!(!escapes_root("a/..b"));
    assert!(!escapes_root("é/..é"));
}

#[test]
fn segment_checks() {
    assert!(contains_separator("a/b"));
    assert!(!contains_separator("ab"));
    assert!(is_unsafe_segment(".."));
    assert!(is_unsafe_segment("a/b"));
    assert!(!is_unsafe_segment("github.com"));
    assert!(!is_unsafe_segment(""));
}

#[test]
fn join_inserts_one_separator() {
    assert_eq!(join_path("/r", "a"), "/r/a");
    assert_eq!(join_path("/r/", "a"), "/r/a");
    assert_eq!(join_path("", "a"), "a");
    assert_eq!(join_path("/", "a"), "/a");
    assert_eq!(join_path("/r", ""), "/r/");
    assert_eq!(join_path("röot", "ä"), "röot/ä");
}

#[test]
fn place_takes_the_host_as_it_is() {
    assert_eq!(place("/r", "Host", "a.git"), Ok("/r/Host/a".to_string()));
    assert_eq!(place("/r/", "h", "a/b/"), Ok("/r/h/a/b".to_string()));
    assert_eq!(place("/r", "h", "../x"), Err(ResolveError::PathEscape));
}

#[test]
fn resolved_path_begins_with_root() {
    for (host, path) in [("h", "a"), ("H.example", "x/y.git"), ("h", "")] {
        let p = resolve("/some/root", &descriptor(host, path), false, &None).unwrap();
        assert!(p.starts_with("/some/root/"));
    }
}

#[test]
fn prefix_test() {
    assert!(starts_with("/r/a", "/r/"));
    assert!(starts_with("/r/a", ""));
    assert!(starts_with("abc", "abc"));
    assert!(!starts_with("ab", "abc"));
    assert!(!starts_with("/x/a", "/r/"));
    assert!(starts_with("é/ü", "é/"));
}

#[test]
fn relative_strips_root_and_separator() {
    assert_eq!(relative("/r", "/r/a/b"), "a/b");
    assert_eq!(relative("/r/", "/r/a"), "a");
    assert_eq!(relative("/r", "/r"), "/r");
    assert_eq!(relative("/r", "/rx/a"), "/rx/a");
    assert_eq!(relative("", "a"), "a");
    assert_eq!(relative("/r", "/r/"), "");
}

#[test]
fn hosts_in_any_case_have_one_lower_case_form() {
    assert_eq!(lowercase_host("GitHub.com"), "github.com");
    assert_eq!(lowercase_host("github.com"), "github.com");
    assert_eq!(lowercase_host("GITHUB.COM"), lowercase_host("github.com"));
    assert_eq!(lowercase_host("ÉCOLE.example"), "école.example");
    assert_eq!(lowercase_host(""), "");
}
