use iris_core::admin::create_invite_passkey;
use iris_core::db::{find_by_id_error, Store};
use iris_core::error::AppError;
use iris_core::invite_passkey::{InvitePasskey, INVITE_VALIDITY_MILLIS};
use iris_core::user::User;

fn invite(valid_until: i64, used: bool) -> InvitePasskey {
    InvitePasskey { id: 1, user: 2, valid_until, used, created_at: 0 }
}

#[test]
fn validate_is_unused_and_before_deadline() {
    let now: i64 = 1_000;
    // fresh and before the deadline: usable
    assert!(invite(2_000, false).is_valid_at(now));
    // at or past the deadline: expired
    assert!(!invite(1_000, false).is_valid_at(now));
    assert!(!invite(999, false).is_valid_at(now));
    // used: terminal, whatever the deadline says
    assert!(!invite(2_000, true).is_valid_at(now));
    assert!(!invite(999, true).is_valid_at(now));
}

#[test]
fn used_invite_never_valid_by_wall_clock() {
    assert!(!invite(i64::MAX, true).is_valid());
}

#[test]
fn far_future_unused_invite_valid_by_wall_clock() {
    assert!(invite(i64::MAX, false).is_valid());
}

#[test]
fn for_user_sets_ten_minute_window() {
    let user = User::new(7, String::from("Ada"), String::from("ada@example.com"));
    let inv = InvitePasskey::for_user(&user, 11, 50_000);
    assert_eq!(inv.id, 11);
    assert_eq!(inv.user, 7);
    assert_eq!(inv.created_at, 50_000);
    assert_eq!(inv.valid_until, 50_000 + 600_000);
    assert!(!inv.used);
}

#[test]
fn issued_invite_valid_at_five_minutes_not_at_eleven() {
    let mut store = Store::new();
    let user = store.create_user(String::from("Ada"), String::from("ada@example.com")).unwrap();
    let t0: i64 = 1_700_000_000_000;
    let inv = create_invite_passkey(&mut store, user.id, t0).unwrap();
    assert!(inv.is_valid_at(t0 + 5 * 60_000));
    assert!(!inv.is_valid_at(t0 + 11 * 60_000));
}

#[test]
fn validity_constant_is_ten_minutes() {
    assert_eq!(INVITE_VALIDITY_MILLIS, 10 * 60 * 1_000);
}

#[test]
fn issue_for_missing_user_is_not_found() {
    let mut store = Store::new();
    let r = create_invite_passkey(&mut store, 42, 1_000);
    assert!(matches!(r, Err(AppError::NotFound)));
    assert_eq!(store.invites.len(), 0);
}

#[test]
fn lookup_of_missing_invite_is_not_found() {
    let store = Store::new();
    let r: Result<InvitePasskey, AppError> = find_by_id_error(&store, 9);
    assert!(matches!(r, Err(AppError::NotFound)));
}

#[test]
fn resolve_user_of_deleted_owner_is_not_found() {
    let mut store = Store::new();
    let user = store.create_user(String::from("Ada"), String::from("ada@example.com")).unwrap();
    let inv = create_invite_passkey(&mut store, user.id, 1_000).unwrap();
    assert!(inv.user(&store).is_ok());
    assert!(store.remove_user(user.id));
    let r = inv.user(&store);
    assert!(matches!(r, Err(AppError::NotFound)));
}

#[test]
fn invites_listed_newest_first() {
    let mut store = Store::new();
    let ada = store.create_user(String::from("Ada"), String::from("ada@example.com")).unwrap();
    let bob = store.create_user(String::from("Bob"), String::from("bob@example.com")).unwrap();
    // created out of order, and one invite belongs to someone else
    create_invite_passkey(&mut store, ada.id, 3_000).unwrap();
    create_invite_passkey(&mut store, bob.id, 9_000).unwrap();
    create_invite_passkey(&mut store, ada.id, 1_000).unwrap();
    create_invite_passkey(&mut store, ada.id, 2_000).unwrap();
    let listed = ada.invite_passkeys(&store);
    assert_eq!(listed.len(), 3);
    assert_eq!(listed[0].created_at, 3_000);
    assert_eq!(listed[1].created_at, 2_000);
    assert_eq!(listed[2].created_at, 1_000);
    for inv in &listed {
        assert_eq!(inv.user, ada.id);
    }
}
