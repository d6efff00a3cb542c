//! Trusted boundary to the outside crates.
//!
//! Everything the core needs from outside — WebAuthn challenge generation
//! and response verification, binary encoding of the protocol state,
//! identifier minting, parsing and printing, and base64 encoding — is
//! called through the wrappers here. Each wrapper's contract states only
//! what the called crate's source and documentation show; the rest of the
//! library is verified against these contracts.

use vstd::prelude::*;

use webauthn_rs::prelude::CreationChallengeResponse;
use webauthn_rs::prelude::Passkey;
use webauthn_rs::prelude::PasskeyRegistration;
use webauthn_rs::prelude::RegisterPublicKeyCredential;
use webauthn_rs::prelude::Webauthn;

verus! {

#[verifier::external_type_specification]
#[verifier::external_body]
pub struct ExWebauthn(Webauthn);

#[verifier::external_type_specification]
#[verifier::external_body]
pub struct ExCreationChallengeResponse(CreationChallengeResponse);

#[verifier::external_type_specification]
#[verifier::external_body]
pub struct ExPasskeyRegistration(PasskeyRegistration);

#[verifier::external_type_specification]
#[verifier::external_body]
pub struct ExRegisterPublicKeyCredential(RegisterPublicKeyCredential);

#[verifier::external_type_specification]
#[verifier::external_body]
pub struct ExPasskey(Passkey);

/// The hyphenated printable form of an identifier, as `uuid` formats it.
pub uninterp spec fn uuid_str_of(id: u128) -> Seq<char>;

/// What `uuid::Uuid::parse_str` makes of a string: the identifier it
/// denotes, or nothing when it is not a syntactically valid identifier.
pub uninterp spec fn uuid_parse_of(s: Seq<char>) -> Option<u128>;

/// The URL-safe, unpadded base64 encoding of a byte sequence.
pub uninterp spec fn b64url_of(bytes: Seq<u8>) -> Seq<char>;

/// Relies on `uuid::Uuid::new_v4` for a fresh random identifier. The
/// result is random, so nothing is assumed of it; callers must cope with
/// any value, including a colliding one.
#[verifier::external_body]
pub(crate) fn fresh_uuid() -> u128 {
    uuid::Uuid::new_v4().as_u128()
}

/// Relies on `uuid::Uuid`'s hyphenated `Display` form: the printed text is
/// a function of the identifier alone, and `uuid::Uuid::parse_str`
/// documents that it accepts this hyphenated form and returns the same
/// identifier.
#[verifier::external_body]
pub(crate) fn uuid_string(id: u128) -> (r: String)
    ensures
        r@ == uuid_str_of(id),
        uuid_parse_of(r@) == Some(id),
{
    uuid::Uuid::from_u128(id).to_string()
}

/// Relies on `uuid::Uuid::parse_str`: the result is a function of the
/// characters alone.
#[verifier::external_body]
pub(crate) fn parse_uuid(s: &str) -> (r: Option<u128>)
    ensures
        r == uuid_parse_of(s@),
{
    match uuid::Uuid::parse_str(s) {
        Ok(u) => Some(u.as_u128()),
        Err(_) => None,
    }
}

/// Relies on `base64`'s `URL_SAFE_NO_PAD` engine: the encoding is a
/// function of the bytes alone, and encoding no bytes yields no output.
#[verifier::external_body]
pub(crate) fn base64url_encode(bytes: &[u8]) -> (r: String)
    ensures
        r@ == b64url_of(bytes@),
        bytes@.len() == 0 ==> r@.len() == 0,
{
    base64::Engine::encode(&base64::engine::general_purpose::URL_SAFE_NO_PAD, bytes)
}

/// Relies on `webauthn_rs::Webauthn::start_passkey_registration` to mint a
/// fresh challenge and the matching server-side registration state. The
/// challenge is random, so nothing is assumed of the outcome.
#[verifier::external_body]
pub(crate) fn webauthn_start_registration(
    webauthn: &Webauthn,
    user_id: u128,
    user_name: &str,
    user_display_name: &str,
) -> Option<(CreationChallengeResponse, PasskeyRegistration)> {
    webauthn.start_passkey_registration(
        uuid::Uuid::from_u128(user_id),
        user_name,
        user_display_name,
        None,
    ).ok()
}

/// Relies on `webauthn_rs::Webauthn::finish_passkey_registration` to
/// verify the authenticator's signed response against the stored
/// registration state. Whether it verifies is the library's decision;
/// nothing is assumed of the outcome.
#[verifier::external_body]
pub(crate) fn webauthn_finish_registration(
    webauthn: &Webauthn,
    response: &RegisterPublicKeyCredential,
    state: &PasskeyRegistration,
) -> Option<Passkey> {
    webauthn.finish_passkey_registration(response, state).ok()
}

/// Relies on `serde_json::to_vec` for the durable binary form of the
/// registration state. Nothing is assumed of the bytes.
#[verifier::external_body]
pub(crate) fn encode_registration_state(state: &PasskeyRegistration) -> Option<Vec<u8>> {
    serde_json::to_vec(state).ok()
}

/// Relies on `serde_json::from_slice` to rebuild a registration state
/// from its durable binary form. Nothing is assumed of the outcome.
#[verifier::external_body]
pub(crate) fn decode_registration_state(bytes: &[u8]) -> Option<PasskeyRegistration> {
    serde_json::from_slice(bytes).ok()
}

/// Relies on `serde_json::to_vec` for the durable binary form of a
/// verified passkey. Nothing is assumed of the bytes.
#[verifier::external_body]
pub(crate) fn encode_passkey(passkey: &Passkey) -> Option<Vec<u8>> {
    serde_json::to_vec(passkey).ok()
}

/// Relies on `webauthn_rs::prelude::Passkey::cred_id` for the
/// authenticator-issued credential identifier, copied out as plain bytes.
#[verifier::external_body]
pub(crate) fn passkey_credential_id(passkey: &Passkey) -> Vec<u8> {
    passkey.cred_id().to_vec()
}

} // verus!
