use iris_core::admin::create_invite_passkey;
use iris_core::ceremony::{invite_passkey, registration_state_key, CeremonyResponse};
use iris_core::db::Store;
use iris_core::error::AppError;
use iris_core::session::Session;
use webauthn_rs::prelude::Url;
use webauthn_rs::{Webauthn, WebauthnBuilder};

fn test_webauthn() -> Webauthn {
    let rp_origin = Url::parse("https://localhost:3000/").unwrap();
    WebauthnBuilder::new("localhost", &rp_origin).unwrap().rp_name("Iris Localhost Testing").build().unwrap()
}

fn store_with_invite(t0: i64) -> (Store, u64, u64) {
    let mut store = Store::new();
    let user = store.create_user(String::from("Ada"), String::from("ada@example.com")).unwrap();
    let inv = create_invite_passkey(&mut store, user.id, t0).unwrap();
    (store, user.id, inv.id)
}

#[test]
fn valid_invite_issues_a_challenge_and_stores_ceremony_state() {
    let webauthn = test_webauthn();
    let (store, _, invite_id) = store_with_invite(1_000);
    let mut session = Session::new();
    let r = invite_passkey(&store, &mut session, &webauthn, invite_id, 2_000).unwrap();
    let json = match r {
        CeremonyResponse::Challenge(json) => json,
        CeremonyResponse::ExpiredOrUsed => panic!("a valid invite must issue a challenge"),
    };
    assert!(!json.is_empty());
    // the ceremony state sits in the session under the fixed attribute
    let state = session.get(registration_state_key());
    assert!(state.is_some());
    assert!(!state.unwrap().is_empty());
}

#[test]
fn two_issuances_produce_distinct_challenges() {
    let webauthn = test_webauthn();
    let (store, _, invite_id) = store_with_invite(1_000);
    let mut session_a = Session::new();
    let mut session_b = Session::new();
    let a = invite_passkey(&store, &mut session_a, &webauthn, invite_id, 2_000).unwrap();
    let b = invite_passkey(&store, &mut session_b, &webauthn, invite_id, 2_000).unwrap();
    match (a, b) {
        (CeremonyResponse::Challenge(ja), CeremonyResponse::Challenge(jb)) => {
            assert_ne!(ja, jb);
        },
        _ => panic!("both issuances must carry a challenge"),
    }
}

#[test]
fn expired_invite_short_circuits_without_touching_the_session() {
    let webauthn = test_webauthn();
    let (store, _, invite_id) = store_with_invite(1_000);
    let mut session = Session::new();
    // eleven minutes later: past the ten-minute window
    let r = invite_passkey(&store, &mut session, &webauthn, invite_id, 1_000 + 11 * 60_000);
    assert!(matches!(r, Ok(CeremonyResponse::ExpiredOrUsed)));
    assert!(session.get(registration_state_key()).is_none());
}

#[test]
fn used_invite_short_circuits_without_touching_the_session() {
    let webauthn = test_webauthn();
    let (mut store, _, invite_id) = store_with_invite(1_000);
    store.invites[0].used = true;
    let mut session = Session::new();
    let r = invite_passkey(&store, &mut session, &webauthn, invite_id, 2_000);
    assert!(matches!(r, Ok(CeremonyResponse::ExpiredOrUsed)));
    assert!(session.get(registration_state_key()).is_none());
}

#[test]
fn unusable_identity_is_a_crypto_failure_and_no_state_leaks() {
    let webauthn = test_webauthn();
    let mut store = Store::new();
    // an empty user name is refused by the challenge builder
    let user = store.create_user(String::from("Ada"), String::new()).unwrap();
    let inv = create_invite_passkey(&mut store, user.id, 1_000).unwrap();
    let mut session = Session::new();
    let r = invite_passkey(&store, &mut session, &webauthn, inv.id, 2_000);
    assert!(matches!(r, Err(AppError::CryptoFailure)));
    assert!(session.get(registration_state_key()).is_none());
}

#[test]
fn missing_invite_is_not_found() {
    let webauthn = test_webauthn();
    let store = Store::new();
    let mut session = Session::new();
    let r = invite_passkey(&store, &mut session, &webauthn, 42, 2_000);
    assert!(matches!(r, Err(AppError::NotFound)));
    assert!(session.get(registration_state_key()).is_none());
}

#[test]
fn deleted_owner_is_not_found_and_no_state_leaks() {
    let webauthn = test_webauthn();
    let (mut store, user_id, invite_id) = store_with_invite(1_000);
    assert!(store.remove_user(user_id));
    let mut session = Session::new();
    let r = invite_passkey(&store, &mut session, &webauthn, invite_id, 2_000);
    assert!(matches!(r, Err(AppError::NotFound)));
    assert!(session.get(registration_state_key()).is_none());
}
