use iris_core::admin::{audit_log_entries, list_recent};
use iris_core::audit_log::AuditLog;
use iris_core::db::{Countable, Store};
use iris_core::user::User;

fn assert_non_increasing(rows: &[iris_core::admin::LogEntry]) {
    for w in rows.windows(2) {
        assert!(w[0].performed_at >= w[1].performed_at);
    }
}

#[test]
fn log_appends_an_entry_with_the_given_timestamp() {
    let mut store = Store::new();
    AuditLog::log(&mut store, None, String::from("first"), 7).unwrap();
    assert_eq!(store.audit_entries.len(), 1);
    assert_eq!(store.audit_entries[0].performed_at, 7);
    assert_eq!(store.audit_entries[0].message, "first");
    assert_eq!(store.performed_links.len(), 0);
}

#[test]
fn log_with_actor_records_an_attribution_link() {
    let mut store = Store::new();
    let user = store.create_user(String::from("Ada"), String::from("ada@example.com")).unwrap();
    AuditLog::log(&mut store, Some(&user), String::from("did a thing"), 9).unwrap();
    assert_eq!(store.performed_links.len(), 1);
    assert_eq!(store.performed_links[0].0, user.id);
    assert_eq!(store.performed_links[0].1, store.audit_entries[0].id);
}

#[test]
fn listing_is_sorted_for_ascending_insertion() {
    let mut store = Store::new();
    for t in [1, 2, 3, 4] {
        AuditLog::log(&mut store, None, format!("entry {}", t), t).unwrap();
    }
    let rows = audit_log_entries(&store);
    assert_eq!(rows.len(), 4);
    assert_non_increasing(&rows);
    assert_eq!(rows[0].performed_at, 4);
    assert_eq!(rows[3].performed_at, 1);
}

#[test]
fn listing_is_sorted_for_descending_insertion() {
    let mut store = Store::new();
    for t in [9, 7, 5] {
        AuditLog::log(&mut store, None, format!("entry {}", t), t).unwrap();
    }
    let rows = audit_log_entries(&store);
    assert_eq!(rows.len(), 3);
    assert_non_increasing(&rows);
    assert_eq!(rows[0].performed_at, 9);
}

#[test]
fn listing_is_sorted_for_mixed_insertion_with_ties() {
    let mut store = Store::new();
    for t in [5, 1, 9, 5, 3, 9] {
        AuditLog::log(&mut store, None, format!("entry {}", t), t).unwrap();
    }
    let rows = audit_log_entries(&store);
    assert_eq!(rows.len(), 6);
    assert_non_increasing(&rows);
    assert_eq!(rows[0].performed_at, 9);
    assert_eq!(rows[5].performed_at, 1);
}

#[test]
fn listing_resolves_actors_and_marks_system_entries() {
    let mut store = Store::new();
    let user = store.create_user(String::from("Ada"), String::from("ada@example.com")).unwrap();
    AuditLog::log(&mut store, Some(&user), String::from("attributed"), 2).unwrap();
    AuditLog::log(&mut store, None, String::from("system"), 1).unwrap();
    let rows = audit_log_entries(&store);
    assert_eq!(rows.len(), 2);
    assert_eq!(rows[0].message, "attributed");
    let actor = rows[0].performed_by.as_ref().expect("attributed entry has an actor");
    assert_eq!(actor.id, user.id);
    assert_eq!(actor.name, "Ada");
    assert!(rows[1].performed_by.is_none());
}

#[test]
fn listing_after_actor_deletion_reports_no_actor() {
    let mut store = Store::new();
    let user = store.create_user(String::from("Ada"), String::from("ada@example.com")).unwrap();
    AuditLog::log(&mut store, Some(&user), String::from("attributed"), 2).unwrap();
    assert!(store.remove_user(user.id));
    let rows = audit_log_entries(&store);
    assert_eq!(rows.len(), 1);
    assert!(rows[0].performed_by.is_none());
}

#[test]
fn list_recent_keeps_the_largest_timestamps() {
    let mut store = Store::new();
    for t in [4, 1, 3, 5, 2] {
        AuditLog::log(&mut store, None, format!("entry {}", t), t).unwrap();
    }
    let top = list_recent(&store, 2);
    assert_eq!(top.len(), 2);
    assert_eq!(top[0].performed_at, 5);
    assert_eq!(top[1].performed_at, 4);
    assert_eq!(list_recent(&store, 5).len(), 5);
    assert_eq!(list_recent(&store, 9).len(), 5);
    assert_eq!(list_recent(&store, 0).len(), 0);
}

#[test]
fn audit_entries_are_countable() {
    let mut store = Store::new();
    assert_eq!(AuditLog::count(&store).count, 0);
    AuditLog::log(&mut store, None, String::from("one"), 1).unwrap();
    AuditLog::log(&mut store, None, String::from("two"), 2).unwrap();
    assert_eq!(AuditLog::count(&store).count, 2);
    assert_eq!(User::count(&store).count, 0);
}
