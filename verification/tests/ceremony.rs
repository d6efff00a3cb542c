//! End-to-end exercises of the registration ceremony protocol.

use passkey_ceremony::coordinator::{Coordinator, CEREMONY_TTL_SECONDS};
use passkey_ceremony::errors::RegistrationError;
use webauthn_rs::prelude::{RegisterPublicKeyCredential, Url, WebauthnBuilder};
use webauthn_rs_core::proto::AuthenticatorAttestationResponseRaw;
use webauthn_rs_core::proto::RegistrationExtensionsClientOutputs;

fn webauthn() -> webauthn_rs::Webauthn {
    let origin = Url::parse("http://localhost:3000").expect("origin");
    WebauthnBuilder::new("localhost", &origin)
        .expect("builder")
        .build()
        .expect("webauthn")
}

/// A syntactically well-formed response whose attestation is garbage: it
/// deserializes and reaches the verification step, which must reject it.
fn bogus_response() -> RegisterPublicKeyCredential {
    RegisterPublicKeyCredential {
        id: "AAAA".to_string(),
        raw_id: vec![0u8, 0, 0].into(),
        response: AuthenticatorAttestationResponseRaw {
            attestation_object: vec![1u8, 2, 3, 4].into(),
            client_data_json: vec![5u8, 6, 7, 8].into(),
            transports: None,
        },
        type_: "public-key".to_string(),
        extensions: RegistrationExtensionsClientOutputs::default(),
    }
}

#[test]
fn begin_issues_parseable_distinct_ceremony_ids() {
    let mut c = Coordinator::new(webauthn());
    let a = c.begin(1, "Alice", 1_000).expect("begin");
    let b = c.begin(1, "Alice", 1_000).expect("begin again");
    assert_ne!(a.ceremony_id, b.ceremony_id);
    assert_eq!(a.ceremony_id.len(), 36);
    assert!(uuid::Uuid::parse_str(&a.ceremony_id).is_ok());
    assert!(uuid::Uuid::parse_str(&b.ceremony_id).is_ok());
}

#[test]
fn complete_consumes_the_ceremony_even_on_verification_failure() {
    let mut c = Coordinator::new(webauthn());
    let start = c.begin(7, "Alice", 1_000).expect("begin");
    let first = c.complete(&start.ceremony_id, &bogus_response(), 1_001);
    assert_eq!(first.unwrap_err(), RegistrationError::VerificationFailed);
    // The failed verification destroyed the ceremony: a retry with the
    // same id observes "not found".
    let second = c.complete(&start.ceremony_id, &bogus_response(), 1_002);
    assert_eq!(second.unwrap_err(), RegistrationError::CeremonyNotFound);
}

#[test]
fn complete_after_expiry_reports_not_found() {
    let mut c = Coordinator::new(webauthn());
    let start = c.begin(7, "Alice", 1_000).expect("begin");
    // The record expires at begin-time + TTL; at exactly that instant it
    // is no longer consumable.
    let at_expiry = c.complete(&start.ceremony_id, &bogus_response(), 1_000 + CEREMONY_TTL_SECONDS);
    assert_eq!(at_expiry.unwrap_err(), RegistrationError::CeremonyNotFound);
}

#[test]
fn complete_just_before_expiry_still_reaches_verification() {
    let mut c = Coordinator::new(webauthn());
    let start = c.begin(7, "Alice", 1_000).expect("begin");
    let r = c.complete(
        &start.ceremony_id,
        &bogus_response(),
        1_000 + CEREMONY_TTL_SECONDS - 1,
    );
    // Still unexpired: the failure comes from verification, not expiry.
    assert_eq!(r.unwrap_err(), RegistrationError::VerificationFailed);
}

#[test]
fn malformed_ceremony_id_is_rejected_without_touching_the_store() {
    let mut c = Coordinator::new(webauthn());
    let start = c.begin(7, "Alice", 1_000).expect("begin");
    let bad = c.complete("not-a-ceremony-id", &bogus_response(), 1_001);
    assert_eq!(bad.unwrap_err(), RegistrationError::MalformedInput);
    // The stored ceremony is untouched: the well-formed id still reaches
    // the verification step afterwards.
    let good = c.complete(&start.ceremony_id, &bogus_response(), 1_002);
    assert_eq!(good.unwrap_err(), RegistrationError::VerificationFailed);
}

#[test]
fn unknown_ceremony_id_reports_not_found() {
    let mut c = Coordinator::new(webauthn());
    let r = c.complete(
        "00000000-0000-0000-0000-000000000000",
        &bogus_response(),
        1_000,
    );
    assert_eq!(r.unwrap_err(), RegistrationError::CeremonyNotFound);
}

#[test]
fn begin_returns_a_nonempty_challenge() {
    let mut c = Coordinator::new(webauthn());
    let start = c.begin(3, "Alice", 0).expect("begin");
    assert!(!start.challenge.public_key.challenge.is_empty());
}

#[test]
fn error_taxonomy_separates_infrastructure_faults() {
    assert!(!RegistrationError::MalformedInput.is_infrastructure_fault());
    assert!(!RegistrationError::CeremonyNotFound.is_infrastructure_fault());
    assert!(!RegistrationError::VerificationFailed.is_infrastructure_fault());
    assert!(RegistrationError::ChallengeGenerationFailed.is_infrastructure_fault());
    assert!(RegistrationError::StateCorrupted.is_infrastructure_fault());
    assert!(RegistrationError::SerializationFailed.is_infrastructure_fault());
    assert!(RegistrationError::PersistenceFailed.is_infrastructure_fault());
}

#[test]
fn corrupt_stored_state_is_reported_as_corruption() {
    let mut c = Coordinator::new(webauthn());
    // Plant a record whose protocol state is not a valid encoding; only
    // direct store access can do this — begin never writes such a state.
    let id: u128 = 0x1234_5678_9abc_def0_1234_5678_9abc_def0;
    c.ceremonies.put(id, 7, vec![0xFF, 0x00], 2_000).expect("put");
    let printable = uuid::Uuid::from_u128(id).to_string();
    let r = c.complete(&printable, &bogus_response(), 1_000);
    assert_eq!(r.unwrap_err(), RegistrationError::StateCorrupted);
}

#[test]
fn stored_state_survives_its_encoding_round_trip() {
    let mut c = Coordinator::new(webauthn());
    let start = c.begin(7, "Alice", 1_000).expect("begin");
    // complete decodes the stored protocol state before verifying; a
    // verification failure (not a corruption report) shows the state
    // round-tripped through its binary form intact.
    let r = c.complete(&start.ceremony_id, &bogus_response(), 1_001);
    assert_eq!(r.unwrap_err(), RegistrationError::VerificationFailed);
}
