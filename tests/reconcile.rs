use rsink::plan::{
    decide_operation, is_trash_key, plan_object, plan_sync, trash_key, visible_objects, LocalEntry,
    Observation, Operation, PlanError, RemoteObject,
};
use rsink::registry::Cache;
use rsink::sweep::{plan_orphans, record_listed, settle_orphan, was_seen, OrphanAction};

const T1: &str = "2023-05-01T10:00:00Z";
const T1_NANOS: i128 = 1_682_935_200_000_000_000;

fn remote(key: &str, size: u64, last_modified: &str) -> RemoteObject {
    RemoteObject { key: key.to_string(), size, last_modified: last_modified.to_string() }
}

fn local(size: u64, modified: Option<i128>) -> LocalEntry {
    LocalEntry { exists: true, size, modified }
}

fn observe(r: RemoteObject, l: LocalEntry) -> Observation {
    Observation { remote: r, local: l }
}

#[test]
fn scenario_equal_sizes_checked() {
    let mut registry = Cache::new();
    registry.insert("a.txt".to_string());
    let o = observe(remote("a.txt", 10, T1), local(10, Some(T1_NANOS - 5)));
    let op = plan_object(&o, false).unwrap();
    assert_eq!(op, Operation::Checked("a.txt".to_string()));
    // The pass re-inserts every listed key: nothing changes here.
    assert!(!registry.insert(op.path()));
    assert_eq!(registry.paths(), vec!["a.txt".to_string()]);
}

#[test]
fn scenario_empty_remote_absent_local() {
    let o = observe(remote("b.txt", 0, T1), LocalEntry::absent());
    assert_eq!(plan_object(&o, false), Ok(Operation::WriteEmpty("b.txt".to_string())));
}

#[test]
fn scenario_newer_local_uploads() {
    let o = observe(remote("c.txt", 7, T1), local(12, Some(T1_NANOS + 1)));
    assert_eq!(plan_object(&o, false), Ok(Operation::Upload("c.txt".to_string())));
}

#[test]
fn scenario_remote_deletion_propagates() {
    let mut registry = Cache::new();
    registry.insert("d.txt".to_string());
    registry.insert("kept.txt".to_string());
    // The current listing holds only "kept.txt".
    let ops = vec![Operation::Checked("kept.txt".to_string())];
    let local_keys = vec!["kept.txt".to_string(), "d.txt".to_string()];
    let actions = plan_orphans(&local_keys, &ops, &registry);
    assert_eq!(actions, vec![OrphanAction::DeleteLocal("d.txt".to_string())]);
    settle_orphan(&mut registry, &actions[0]);
    assert!(!registry.contains("d.txt"));
    assert!(registry.contains("kept.txt"));
}

#[test]
fn new_local_file_is_uploaded_by_sweep() {
    let mut registry = Cache::new();
    let ops: Vec<Operation> = vec![];
    let actions = plan_orphans(&vec!["n.txt".to_string()], &ops, &registry);
    assert_eq!(actions, vec![OrphanAction::UploadNew("n.txt".to_string())]);
    settle_orphan(&mut registry, &actions[0]);
    assert!(registry.contains("n.txt"));
}

#[test]
fn seen_keys_are_found() {
    let ops = vec![Operation::Write("x".to_string()), Operation::Upload("y".to_string())];
    assert!(was_seen(&ops, &"y".to_string()));
    assert!(!was_seen(&ops, &"z".to_string()));
}

#[test]
fn equal_nonzero_sizes_never_transfer() {
    for size in [1u64, 10, u64::MAX] {
        let l = local(size, Some(T1_NANOS + 100));
        let r = decide_operation(&"k".to_string(), size, &l, false, Some(T1_NANOS));
        assert_eq!(r, Ok(Operation::Checked("k".to_string())));
    }
}

#[test]
fn empty_remote_with_empty_local_file_is_checked() {
    let l = local(0, Some(T1_NANOS));
    let r = decide_operation(&"k".to_string(), 0, &l, false, Some(T1_NANOS));
    assert_eq!(r, Ok(Operation::Checked("k".to_string())));
}

#[test]
fn empty_remote_with_content_locally_uploads() {
    let l = local(3, None);
    assert_eq!(decide_operation(&"k".to_string(), 0, &l, false, None), Ok(Operation::Upload("k".to_string())));
}

#[test]
fn equal_times_go_to_remote() {
    let l = local(3, Some(T1_NANOS));
    let r = decide_operation(&"k".to_string(), 5, &l, false, Some(T1_NANOS));
    assert_eq!(r, Ok(Operation::Write("k".to_string())));
}

#[test]
fn older_local_is_overwritten() {
    let o = observe(remote("e.txt", 7, T1), local(12, Some(T1_NANOS - 1)));
    assert_eq!(plan_object(&o, false), Ok(Operation::Write("e.txt".to_string())));
}

#[test]
fn absent_local_is_written() {
    let o = observe(remote("f.txt", 7, T1), LocalEntry::absent());
    assert_eq!(plan_object(&o, false), Ok(Operation::Write("f.txt".to_string())));
}

#[test]
fn unknown_local_time_is_written() {
    let o = observe(remote("g.txt", 7, "not a time"), local(12, None));
    assert_eq!(plan_object(&o, false), Ok(Operation::Write("g.txt".to_string())));
}

#[test]
fn size_only_ignores_times() {
    let o = observe(remote("h.txt", 7, T1), local(12, Some(T1_NANOS + 1)));
    assert_eq!(plan_object(&o, true), Ok(Operation::Write("h.txt".to_string())));
}

#[test]
fn offset_timestamps_are_compared_as_instants() {
    // 12:00 at +02:00 is 10:00 UTC: one nanosecond later locally wins.
    let o = observe(remote("i.txt", 7, "2023-05-01T12:00:00+02:00"), local(12, Some(T1_NANOS + 1)));
    assert_eq!(plan_object(&o, false), Ok(Operation::Upload("i.txt".to_string())));
    let o = observe(remote("i.txt", 7, "2023-05-01T12:00:00+02:00"), local(12, Some(T1_NANOS)));
    assert_eq!(plan_object(&o, false), Ok(Operation::Write("i.txt".to_string())));
}

#[test]
fn invalid_timestamp_is_an_error() {
    let o = observe(remote("j.txt", 7, "yesterday"), local(12, Some(T1_NANOS)));
    assert_eq!(plan_object(&o, false), Err(PlanError::InvalidTimestamp("j.txt".to_string())));
}

#[test]
fn plan_stops_at_first_error() {
    let observed = vec![
        observe(remote("a", 1, T1), local(1, None)),
        observe(remote("b", 7, "bad"), local(2, Some(0))),
        observe(remote("c", 7, "worse"), local(2, Some(0))),
    ];
    assert_eq!(plan_sync(&observed, false), Err(PlanError::InvalidTimestamp("b".to_string())));
}

#[test]
fn second_pass_is_all_checked() {
    let first = vec![
        observe(remote("a", 10, T1), local(10, None)),
        observe(remote("b", 0, T1), LocalEntry::absent()),
        observe(remote("c", 5, T1), local(9, Some(T1_NANOS + 1))),
        observe(remote("d", 5, T1), local(9, Some(T1_NANOS - 1))),
    ];
    let ops = plan_sync(&first, false).unwrap();
    assert_eq!(
        ops,
        vec![
            Operation::Checked("a".to_string()),
            Operation::WriteEmpty("b".to_string()),
            Operation::Upload("c".to_string()),
            Operation::Write("d".to_string()),
        ]
    );
    // What the first pass leaves behind.
    let now = T1_NANOS + 1_000;
    let second = vec![
        observe(remote("a", 10, T1), local(10, None)),
        observe(remote("b", 0, T1), local(0, Some(now))),
        observe(remote("c", 9, "2023-05-01T10:00:01Z"), local(9, Some(T1_NANOS + 1))),
        observe(remote("d", 5, T1), local(5, Some(now))),
    ];
    let again = plan_sync(&second, false).unwrap();
    for (op, o) in again.iter().zip(second.iter()) {
        assert_eq!(*op, Operation::Checked(o.remote.key.clone()));
    }
}

#[test]
fn trash_keys_are_skipped() {
    let listing = vec![remote("a", 1, T1), remote(".trash/a", 1, T1), remote("b/.trash/c", 1, T1)];
    let visible = visible_objects(&listing);
    let keys: Vec<String> = visible.iter().map(|o| o.key.clone()).collect();
    assert_eq!(keys, vec!["a".to_string(), "b/.trash/c".to_string()]);
    assert!(is_trash_key(".trash/x"));
    assert!(!is_trash_key(".trash"));
    assert!(!is_trash_key("x/.trash/"));
}

#[test]
fn trash_key_prefixes() {
    assert_eq!(trash_key("dir/file.txt"), ".trash/dir/file.txt");
}

#[test]
fn operation_path_names_the_key() {
    assert_eq!(Operation::Write("w".to_string()).path(), "w");
    assert_eq!(Operation::WriteEmpty("we".to_string()).path(), "we");
    assert_eq!(Operation::Upload("u".to_string()).path(), "u");
    assert_eq!(Operation::Checked("c".to_string()).path(), "c");
}

#[test]
fn sweep_after_full_listing_does_nothing() {
    let mut registry = Cache::new();
    registry.insert("a".to_string());
    let ops = vec![Operation::Checked("a".to_string()), Operation::Write("b".to_string())];
    let local_keys = vec!["b".to_string(), "a".to_string()];
    assert!(plan_orphans(&local_keys, &ops, &registry).is_empty());
}

#[test]
fn listed_keys_are_recorded() {
    let mut registry = Cache::new();
    assert!(record_listed(&mut registry, &Operation::Write("w".to_string())));
    assert!(!record_listed(&mut registry, &Operation::Checked("w".to_string())));
    assert!(registry.contains("w"));
}
