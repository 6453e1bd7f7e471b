use opendal_core::path::build_abs_path;
use opendal_core::path::dir_path_segments;
use opendal_core::path::get_basename;
use opendal_core::path::get_parent;
use opendal_core::path::normalize_root;

#[test]
fn normalize_root_empty_is_slash() {
    assert_eq!(normalize_root(""), "/");
}

#[test]
fn normalize_root_strips_both_ends() {
    assert_eq!(normalize_root("a/b/"), "/a/b");
    assert_eq!(normalize_root("/a/b"), "/a/b");
    assert_eq!(normalize_root("///a/b///"), "/a/b");
    assert_eq!(normalize_root("/"), "/");
}

#[test]
fn abs_path_joins_against_root() {
    assert_eq!(build_abs_path("/", "x/y"), "/x/y");
    assert_eq!(build_abs_path("/a/b", "x/y"), "/a/b/x/y");
    assert_eq!(build_abs_path("/a/b", "/x"), "/a/b/x");
    assert_eq!(build_abs_path("/a/b", ""), "/a/b");
    assert_eq!(build_abs_path("/a/b", "dir/"), "/a/b/dir/");
}

#[test]
fn basename_and_parent() {
    assert_eq!(get_basename("/a/b/c"), "c");
    assert_eq!(get_basename("/a/b/c/"), "c");
    assert_eq!(get_basename("plain"), "plain");
    assert_eq!(get_parent("/a/b/c"), "/a/b");
    assert_eq!(get_parent("/a"), "/");
    assert_eq!(get_parent("plain"), "/");
    assert_eq!(get_parent("/a/b/"), "/a");
}

#[test]
fn dir_segments_walk_down_the_path() {
    let segs = dir_path_segments("/a/b/c/");
    let names: Vec<&str> = segs.iter().map(|s| s.name.as_str()).collect();
    let paths: Vec<&str> = segs.iter().map(|s| s.path.as_str()).collect();
    assert_eq!(names, vec!["a", "b", "c"]);
    assert_eq!(paths, vec!["/a", "/a/b", "/a/b/c"]);
}

#[test]
fn dir_segments_of_root_are_empty() {
    assert!(dir_path_segments("/").is_empty());
    assert!(dir_path_segments("").is_empty());
}
