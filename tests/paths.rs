use rsink::config::{default_interval, default_log_level, BackendOptions, S3Options};
use rsink::paths::{key_to_path, normalize_path, starts_with, stringify_path};

#[test]
fn normalize_strips_root() {
    assert_eq!(normalize_path("/home/u/sync", "/home/u/sync/a/b.txt"), Some("a/b.txt".to_string()));
    assert_eq!(normalize_path("/home/u/sync/", "/home/u/sync/a.txt"), Some("a.txt".to_string()));
}

#[test]
fn normalize_rejects_paths_outside_root() {
    assert_eq!(normalize_path("/home/u/sync", "/home/u/other/a.txt"), None);
    assert_eq!(normalize_path("/home/u/sync", "/home/u/syncx/a.txt"), None);
    assert_eq!(normalize_path("/home/u/sync", "/home/u"), None);
}

#[test]
fn key_to_path_joins_root_and_key() {
    assert_eq!(key_to_path("/r", "a/b"), "/r/a/b");
    assert_eq!(key_to_path("/r/", "a"), "/r/a");
}

#[test]
fn key_round_trips() {
    let p = key_to_path("/data/mirror", "x/y.bin");
    assert_eq!(normalize_path("/data/mirror", &p), Some("x/y.bin".to_string()));
}

#[test]
fn stringify_joins_with_slashes() {
    assert_eq!(stringify_path(&vec![]), "");
    assert_eq!(stringify_path(&vec!["a".to_string()]), "a");
    assert_eq!(stringify_path(&vec!["".to_string(), "home".to_string(), "f".to_string()]), "/home/f");
}

#[test]
fn prefix_test() {
    assert!(starts_with("abc", "ab"));
    assert!(starts_with("abc", ""));
    assert!(!starts_with("ab", "abc"));
    assert!(!starts_with("abc", "b"));
}

#[test]
fn config_defaults() {
    assert_eq!(default_interval(), 180000);
    assert_eq!(default_log_level(), "info");
    let o = BackendOptions::S3(S3Options {
        bucket_name: "b".to_string(),
        access_key_id: "k".to_string(),
        secret_access_key: "s".to_string(),
        region: None,
        endpoint: None,
        size_only: true,
        checksum: false,
        move_to_trash: false,
    });
    assert!(o.size_only());
    assert!(!o.move_to_trash());
}
