use vstd::prelude::*;

use webauthn_rs::Webauthn;

use crate::db::{spec_find_invite, spec_find_user, Store};
use crate::error::AppError;
use crate::invite_passkey::InvitePasskey;
use crate::session::Session;
use crate::user::User;
use crate::webauthn::{challenge_json, registration_state_bytes, start_registration_call};

verus! {

/// The fixed session attribute under which the ceremony state is kept.
pub open spec fn spec_registration_state_key() -> Seq<char> {
    "registration_state"@
}

/// The fixed session attribute under which the ceremony state is kept.
pub fn registration_state_key() -> (s: &'static str)
    ensures
        s@ == spec_registration_state_key(),
{
    "registration_state"
}

/// What the ceremony start returns to the client: either the terminal
/// page for an expired or used invite, or the challenge payload to hand
/// to the client authenticator.
#[derive(Clone, Debug)]
pub enum CeremonyResponse {
    ExpiredOrUsed,
    Challenge(String),
}

/// The outcome carries a challenge for the client authenticator.
pub open spec fn issued_challenge(r: Result<CeremonyResponse, AppError>) -> bool {
    r matches Ok(c) && c is Challenge
}

/// Store prepared ceremony material in the session under the fixed
/// attribute and hand the challenge back. With no material, the ceremony
/// fails as a crypto failure and the session is left untouched.
pub fn issue_challenge(session: &mut Session, material: Option<(String, Vec<u8>)>) -> (r: Result<
    CeremonyResponse,
    AppError,
>)
    ensures
        material matches Some(m) ==> r == Ok::<CeremonyResponse, AppError>(
            CeremonyResponse::Challenge(m.0),
        ) && final(session)@ == old(session)@.insert(spec_registration_state_key(), m.1@),
        material is None ==> r == Err::<CeremonyResponse, AppError>(AppError::CryptoFailure)
            && final(session)@ == old(session)@,
{
    match material {
        Some((challenge, state)) => {
            let key = registration_state_key();
            session.set(String::from_str(key), state);
            Ok(CeremonyResponse::Challenge(challenge))
        },
        None => Err(AppError::CryptoFailure),
    }
}

/// Prepare the ceremony material for a user: the challenge JSON and the
/// serialized ceremony state. The challenge is random, so nothing is
/// promised of the values; what the ceremony does with any outcome is
/// pinned down by `issue_challenge`.
fn prepare_material(webauthn: &Webauthn, user: &User) -> Option<(String, Vec<u8>)> {
    match start_registration_call(
        webauthn,
        user.webauth_id(),
        user.email.as_str(),
        user.name.as_str(),
    ) {
        Some((ccr, state)) => match challenge_json(&ccr) {
            Some(json) => match registration_state_bytes(&state) {
                Some(bytes) => Some((json, bytes)),
                None => None,
            },
            None => None,
        },
        None => None,
    }
}

/// Start the registration ceremony for an invite: look the invite up,
/// short-circuit to the terminal page when it is expired or used, resolve
/// the owning user, begin the challenge bound to the user's stable
/// identifier, and stash the ceremony state in the session under the
/// fixed attribute.
pub fn invite_passkey(
    store: &Store,
    session: &mut Session,
    webauthn: &Webauthn,
    invite_id: u64,
    now: i64,
) -> (r: Result<CeremonyResponse, AppError>)
    ensures
        // the session changes only when a challenge is issued, and then
        // only under the fixed attribute
        !issued_challenge(r) ==> final(session)@ == old(session)@,
        issued_challenge(r) ==> (exists|state: Seq<u8>|
            final(session)@ == old(session)@.insert(spec_registration_state_key(), state)),
        // not found: the invite does not resolve, or a valid invite's
        // owner does not
        r == Err::<CeremonyResponse, AppError>(AppError::NotFound) <==> (spec_find_invite(
            store.invites@,
            invite_id,
        ) is None || (spec_find_invite(store.invites@, invite_id) matches Some(inv)
            && inv.spec_is_valid(now as int) && spec_find_user(store.users@, inv.user) is None)),
        // expired or used: the terminal page, never a challenge
        r == Ok::<CeremonyResponse, AppError>(CeremonyResponse::ExpiredOrUsed) <==> (
        spec_find_invite(store.invites@, invite_id) matches Some(inv) && !inv.spec_is_valid(
            now as int,
        )),
        // the only errors are the two above
        r is Err ==> r == Err::<CeremonyResponse, AppError>(AppError::NotFound) || r == Err::<
            CeremonyResponse,
            AppError,
        >(AppError::CryptoFailure),
        // a crypto failure arises only on a valid invite whose owner resolved
        r == Err::<CeremonyResponse, AppError>(AppError::CryptoFailure) ==> (spec_find_invite(
            store.invites@,
            invite_id,
        ) matches Some(inv) && inv.spec_is_valid(now as int) && spec_find_user(
            store.users@,
            inv.user,
        ) is Some),
        // a challenge is issued only for a valid invite whose owner resolved
        issued_challenge(r) ==> (spec_find_invite(store.invites@, invite_id) matches Some(inv)
            && inv.spec_is_valid(now as int) && spec_find_user(store.users@, inv.user) is Some),
{
    let invite = match crate::db::find_by_id_error::<InvitePasskey>(store, invite_id) {
        Ok(inv) => inv,
        Err(e) => {
            return Err(e);
        },
    };
    if !invite.is_valid_at(now) {
        return Ok(CeremonyResponse::ExpiredOrUsed);
    }
    let user = match invite.user(store) {
        Ok(u) => u,
        Err(e) => {
            return Err(e);
        },
    };
    let material = prepare_material(webauthn, &user);
    issue_challenge(session, material)
}

} // verus!
