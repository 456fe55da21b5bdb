use vstd::prelude::*;

use webauthn_rs::prelude::{CreationChallengeResponse, PasskeyRegistration};
use webauthn_rs::Webauthn;

verus! {

#[verifier::external_type_specification]
#[verifier::external_body]
pub struct ExWebauthn(Webauthn);

#[verifier::external_type_specification]
#[verifier::external_body]
pub struct ExCreationChallengeResponse(CreationChallengeResponse);

#[verifier::external_type_specification]
#[verifier::external_body]
pub struct ExPasskeyRegistration(PasskeyRegistration);

/// Relies on `webauthn_rs::Webauthn::start_passkey_registration` to begin
/// a registration ceremony bound to the user's stable 128-bit identifier
/// (converted through `uuid::Uuid::from_u128`), producing the challenge
/// payload and the opaque ceremony state. The challenge is freshly
/// random, so nothing is promised of the result.
#[verifier::external_body]
pub(crate) fn start_registration_call(
    webauthn: &Webauthn,
    user_unique_id: u128,
    user_name: &str,
    user_display_name: &str,
) -> Option<(CreationChallengeResponse, PasskeyRegistration)> {
    let uuid = uuid::Uuid::from_u128(user_unique_id);
    webauthn.start_passkey_registration(uuid, user_name, user_display_name, None).ok()
}

/// Relies on `serde_json::to_string` for the JSON text of the challenge
/// payload embedded in the response for the client authenticator.
#[verifier::external_body]
pub(crate) fn challenge_json(challenge: &CreationChallengeResponse) -> Option<String> {
    serde_json::to_string(challenge).ok()
}

/// Relies on `serde_json::to_vec` for the serialized bytes of the
/// ceremony state that the session carries between the two requests.
#[verifier::external_body]
pub(crate) fn registration_state_bytes(state: &PasskeyRegistration) -> Option<Vec<u8>> {
    serde_json::to_vec(state).ok()
}

} // verus!
