use iris_core::db::{find_by_id, find_by_id_error, Countable, Named, Store};
use iris_core::error::AppError;
use iris_core::extractors::ExtractById;
use iris_core::group::Group;
use iris_core::session::Session;
use iris_core::user::User;

#[test]
fn table_names_match_the_record_kinds() {
    assert_eq!(<User as Named>::name(), "user");
    assert_eq!(<Group as Named>::name(), "group");
    assert_eq!(<iris_core::invite_passkey::InvitePasskey as Named>::name(), "invite_passkey");
    assert_eq!(<iris_core::passkey::Passkey as Named>::name(), "passkey");
    assert_eq!(<iris_core::audit_log::AuditLog as Named>::name(), "audit_log");
}

#[test]
fn identifiers_are_unique_across_kinds() {
    let mut store = Store::new();
    let u = store.create_user(String::from("Ada"), String::from("ada@example.com")).unwrap();
    let g = store.create_group(String::from("Admins")).unwrap();
    let u2 = store.create_user(String::from("Bob"), String::from("bob@example.com")).unwrap();
    assert_eq!(u.id, 0);
    assert_eq!(g.id, 1);
    assert_eq!(u2.id, 2);
}

#[test]
fn find_by_id_resolves_users_and_groups() {
    let mut store = Store::new();
    let u = store.create_user(String::from("Ada"), String::from("ada@example.com")).unwrap();
    let g = store.create_group(String::from("Admins")).unwrap();
    let found: Option<User> = find_by_id(&store, u.id);
    assert_eq!(found.unwrap().name, "Ada");
    let found_group: Option<Group> = find_by_id(&store, g.id);
    assert_eq!(found_group.unwrap().name, "Admins");
    let missing: Option<User> = find_by_id(&store, 99);
    assert!(missing.is_none());
    // a group id does not resolve as a user
    let cross: Option<User> = find_by_id(&store, g.id);
    assert!(cross.is_none());
}

#[test]
fn extract_by_id_wraps_the_resolved_record() {
    let mut store = Store::new();
    let u = store.create_user(String::from("Ada"), String::from("ada@example.com")).unwrap();
    let ExtractById(got): ExtractById<User> = ExtractById::from_store(&store, u.id).unwrap();
    assert_eq!(got.email, "ada@example.com");
    let missing: Result<ExtractById<User>, AppError> = ExtractById::from_store(&store, 77);
    assert!(matches!(missing, Err(AppError::NotFound)));
}

#[test]
fn membership_governs_the_group_listing() {
    let mut store = Store::new();
    let ada = store.create_user(String::from("Ada"), String::from("ada@example.com")).unwrap();
    let bob = store.create_user(String::from("Bob"), String::from("bob@example.com")).unwrap();
    let admins = store.create_group(String::from("Admins")).unwrap();
    let readers = store.create_group(String::from("Readers")).unwrap();
    store.add_member(ada.id, admins.id);
    store.add_member(bob.id, readers.id);
    let ada_groups = ada.groups(&store);
    assert_eq!(ada_groups.len(), 1);
    assert_eq!(ada_groups[0].name, "Admins");
    let bob_groups = bob.groups(&store);
    assert_eq!(bob_groups.len(), 1);
    assert_eq!(bob_groups[0].name, "Readers");
}

#[test]
fn counts_track_the_collections() {
    let mut store = Store::new();
    assert_eq!(User::count(&store).count, 0);
    store.create_user(String::from("Ada"), String::from("ada@example.com")).unwrap();
    store.create_user(String::from("Bob"), String::from("bob@example.com")).unwrap();
    store.create_group(String::from("Admins")).unwrap();
    assert_eq!(User::count(&store).count, 2);
    assert_eq!(Group::count(&store).count, 1);
}

#[test]
fn users_carry_a_stable_webauthn_identity() {
    let a = User::new(1, String::from("Ada"), String::from("ada@example.com"));
    let b = User::new(2, String::from("Bob"), String::from("bob@example.com"));
    assert_eq!(a.webauth_id(), a.webauth_id());
    assert_ne!(a.webauth_id(), b.webauth_id());
}

#[test]
fn session_set_and_get_round_trip() {
    let mut session = Session::new();
    assert!(session.get("missing").is_none());
    session.set(String::from("count"), vec![1]);
    session.set(String::from("registration_state"), vec![9, 9]);
    assert_eq!(session.get("count").unwrap(), &vec![1]);
    // a later write overrides an earlier one
    session.set(String::from("count"), vec![2]);
    assert_eq!(session.get("count").unwrap(), &vec![2]);
    assert_eq!(session.get("registration_state").unwrap(), &vec![9, 9]);
}

#[test]
fn error_messages_name_the_kind() {
    assert_eq!(AppError::NotFound.message(), "not found");
    assert_eq!(AppError::CryptoFailure.message(), "cryptographic operation failed");
    assert_eq!(AppError::PersistenceFailure.message(), "persistence failure");
}
