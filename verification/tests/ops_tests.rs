use oxidized_server::ops::{OpEntry, OpsStore};
use uuid::Uuid;

fn uuid(s: &str) -> u128 {
    Uuid::parse_str(s).unwrap().as_u128()
}

fn fresh() -> u128 {
    Uuid::new_v4().as_u128()
}

fn sample_entries() -> Vec<OpEntry> {
    vec![
        OpEntry {
            uuid: uuid("069a79f4-44e9-4726-a5be-fca90e38aaf5"),
            name: "Notch".to_string(),
            level: 4,
            bypasses_player_limit: false,
        },
        OpEntry {
            uuid: uuid("61699b2e-d327-4a01-9f1e-0ea8c3f06bc6"),
            name: "Dinnerbone".to_string(),
            level: 3,
            bypasses_player_limit: true,
        },
    ]
}

fn empty_store() -> OpsStore {
    OpsStore::load("ops.json".to_string(), 4, Vec::new())
}

#[test]
fn test_load_parses_valid_ops_json() {
    let store = OpsStore::load("ops.json".to_string(), 4, sample_entries());
    assert_eq!(store.len(), 2);
    assert!(store.is_op(uuid("069a79f4-44e9-4726-a5be-fca90e38aaf5")));
    assert_eq!(store.get_permission_level(uuid("069a79f4-44e9-4726-a5be-fca90e38aaf5")), 4);
    assert_eq!(store.get_permission_level(uuid("61699b2e-d327-4a01-9f1e-0ea8c3f06bc6")), 3);
}

#[test]
fn test_load_returns_empty_when_file_missing() {
    let store = OpsStore::load("/tmp/nonexistent_ops_test.json".to_string(), 4, Vec::new());
    assert!(store.is_empty());
    assert_eq!(store.len(), 0);
}

#[test]
fn test_add_persists_and_is_queryable() {
    let mut store = empty_store();
    let id = fresh();
    store.add(id, "TestPlayer".to_string(), None, false);
    assert!(store.is_op(id));
    assert_eq!(store.get_permission_level(id), 4);
    assert!(!store.bypasses_player_limit(id));
    let saved = store.to_entries();
    assert_eq!(saved.len(), 1);
    assert_eq!(saved[0].uuid, id);
}

#[test]
fn test_add_with_explicit_level() {
    let mut store = empty_store();
    let id = fresh();
    store.add(id, "ModPlayer".to_string(), Some(2), true);
    assert_eq!(store.get_permission_level(id), 2);
    assert!(store.bypasses_player_limit(id));
}

#[test]
fn test_add_clamps_level_to_valid_range() {
    let mut store = empty_store();
    let id1 = fresh();
    store.add(id1, "TooHigh".to_string(), Some(10), false);
    assert_eq!(store.get_permission_level(id1), 4);
    let id2 = fresh();
    store.add(id2, "TooLow".to_string(), Some(-5), false);
    assert_eq!(store.get_permission_level(id2), 0);
}

#[test]
fn test_remove_deletes_entry_and_persists() {
    let mut store = empty_store();
    let id = fresh();
    store.add(id, "RemoveMe".to_string(), None, false);
    assert!(store.is_op(id));
    assert!(store.remove(id));
    assert!(!store.is_op(id));
    assert_eq!(store.get_permission_level(id), 0);
    assert!(store.to_entries().is_empty());
}

#[test]
fn test_remove_returns_false_for_nonexistent() {
    let mut store = empty_store();
    assert!(!store.remove(fresh()));
}

#[test]
fn test_roundtrip_load_save_preserves_entries() {
    let mut store1 = empty_store();
    let id = uuid("069a79f4-44e9-4726-a5be-fca90e38aaf5");
    store1.add(id, "Notch".to_string(), Some(4), false);
    let saved = store1.to_entries();
    let store2 = OpsStore::load("ops.json".to_string(), 4, saved);
    assert_eq!(store2.len(), 1);
    let entry = store2.get(id).unwrap();
    assert_eq!(entry.name, "Notch");
    assert_eq!(entry.level, 4);
    assert!(!entry.bypasses_player_limit);
}

#[test]
fn test_op_names_returns_all_names() {
    let mut store = empty_store();
    store.add(fresh(), "Alice".to_string(), None, false);
    store.add(fresh(), "Bob".to_string(), None, false);
    let mut names = store.op_names();
    names.sort();
    assert_eq!(names, vec!["Alice", "Bob"]);
}

#[test]
fn test_non_op_returns_zero_permission() {
    let store = OpsStore::load("/tmp/nonexistent_ops.json".to_string(), 4, Vec::new());
    assert_eq!(store.get_permission_level(fresh()), 0);
}

#[test]
fn ops_default_level_is_clamped_and_used() {
    let mut store = OpsStore::load("ops.json".to_string(), 9, Vec::new());
    let id = fresh();
    store.add(id, "Owner".to_string(), None, false);
    assert_eq!(store.get_permission_level(id), 4);
    let mut low = OpsStore::load("ops.json".to_string(), 0, Vec::new());
    let id2 = fresh();
    low.add(id2, "Mod".to_string(), None, false);
    assert_eq!(low.get_permission_level(id2), 1);
    assert_eq!(low.path(), "ops.json");
}

#[test]
fn ops_later_entry_for_same_uuid_wins_on_load() {
    let id = fresh();
    let entries = vec![
        OpEntry { uuid: id, name: "Old".to_string(), level: 1, bypasses_player_limit: false },
        OpEntry { uuid: id, name: "New".to_string(), level: 3, bypasses_player_limit: true },
    ];
    let store = OpsStore::load("ops.json".to_string(), 4, entries);
    assert_eq!(store.len(), 1);
    let e = store.get(id).unwrap();
    assert_eq!(e.name, "New");
    assert_eq!(e.level, 3);
    assert!(store.bypasses_player_limit(id));
}

#[test]
fn ops_add_replaces_existing_entry() {
    let mut store = OpsStore::load("ops.json".to_string(), 4, sample_entries());
    let notch = uuid("069a79f4-44e9-4726-a5be-fca90e38aaf5");
    store.add(notch, "Notch".to_string(), Some(1), true);
    assert_eq!(store.len(), 2);
    assert_eq!(store.get_permission_level(notch), 1);
    assert!(store.bypasses_player_limit(notch));
    assert_eq!(store.get_permission_level(uuid("61699b2e-d327-4a01-9f1e-0ea8c3f06bc6")), 3);
}
