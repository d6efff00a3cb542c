//! Exercises of the two stores and of the credential-recording step.

use passkey_ceremony::coordinator::Coordinator;
use passkey_ceremony::credentials::{bytes_eq, Credential, CredentialStore};
use passkey_ceremony::errors::RegistrationError;
use passkey_ceremony::store::CeremonyStore;
use webauthn_rs::prelude::{Url, WebauthnBuilder};

fn webauthn() -> webauthn_rs::Webauthn {
    let origin = Url::parse("http://localhost:3000").expect("origin");
    WebauthnBuilder::new("localhost", &origin)
        .expect("builder")
        .build()
        .expect("webauthn")
}

#[test]
fn take_returns_the_exact_stored_state_once() {
    let mut s = CeremonyStore::new();
    let blob = vec![9u8, 8, 7, 6, 5];
    s.put(42, 7, blob.clone(), 1_300).expect("put");
    // Round trip: the take hands back the protocol state byte-for-byte,
    // with the bound user.
    let (taken, user) = s.take_if_valid(42, 1_000).expect("first take");
    assert_eq!(taken, blob);
    assert_eq!(user, 7);
    // Single use: the record is gone in the same operation.
    assert!(s.take_if_valid(42, 1_000).is_none());
}

#[test]
fn expired_records_are_never_returned() {
    let mut s = CeremonyStore::new();
    s.put(42, 7, vec![1u8], 1_000).expect("put");
    assert!(s.take_if_valid(42, 1_000).is_none());
    assert!(s.take_if_valid(42, 2_000).is_none());
    // Expiry is enforced at read time; the record was not deleted, so an
    // earlier clock still sees it.
    assert!(s.take_if_valid(42, 999).is_some());
}

#[test]
fn two_takes_racing_on_one_ceremony_have_one_winner() {
    let mut s = CeremonyStore::new();
    s.put(42, 7, vec![1u8], 1_300).expect("put");
    let first = s.take_if_valid(42, 1_000);
    let second = s.take_if_valid(42, 1_000);
    assert_eq!(
        [first.is_some(), second.is_some()].iter().filter(|w| **w).count(),
        1
    );
}

#[test]
fn put_never_overwrites_a_ceremony() {
    let mut s = CeremonyStore::new();
    s.put(42, 7, vec![1u8], 1_300).expect("put");
    let collision = s.put(42, 8, vec![2u8], 9_999);
    assert_eq!(collision.unwrap_err(), RegistrationError::PersistenceFailed);
    // The original record survived.
    let (blob, user) = s.take_if_valid(42, 1_000).expect("take");
    assert_eq!((blob, user), (vec![1u8], 7));
}

#[test]
fn absent_ids_are_indistinguishable_from_consumed_ones() {
    let mut s = CeremonyStore::new();
    assert!(s.take_if_valid(1, 0).is_none());
}

#[test]
fn recorded_credential_is_looked_up_for_its_user() {
    let mut c = Coordinator::new(webauthn());
    let done = c
        .record_credential(501, 7, vec![0xFF, 0xEE], vec![1, 2, 3])
        .expect("record");
    assert_eq!(done.credential_record_id, 501);
    assert_eq!(done.credential_id, vec![0xFF, 0xEE]);
    // Exact URL-safe unpadded base64 of [0xFF, 0xEE].
    assert_eq!(done.credential_id_encoded, "_-4");
    assert_eq!(c.credentials.len(), 1);
    assert_eq!(c.credentials.count_for_user(7), 1);
    assert_eq!(c.credentials.count_for_user(8), 0);
    let stored = c.credentials.get(0);
    assert_eq!(stored.id, 501);
    assert_eq!(stored.user_id, 7);
    assert_eq!(stored.credential_id, vec![0xFF, 0xEE]);
    assert_eq!(stored.public_key, vec![1, 2, 3]);
}

#[test]
fn duplicate_credential_for_same_user_is_rejected() {
    let mut c = Coordinator::new(webauthn());
    c.record_credential(1, 7, vec![1, 2], vec![9]).expect("first");
    let dup = c.record_credential(2, 7, vec![1, 2], vec![9]);
    assert_eq!(dup.unwrap_err(), RegistrationError::PersistenceFailed);
    assert_eq!(c.credentials.len(), 1);
    // The same authenticator credential id under another user is fine.
    c.record_credential(3, 8, vec![1, 2], vec![9]).expect("other user");
    assert_eq!(c.credentials.len(), 2);
}

#[test]
fn credential_store_appends_in_order() {
    let mut s = CredentialStore::new();
    s.save(Credential { id: 1, user_id: 7, credential_id: vec![1], public_key: vec![] })
        .expect("save");
    s.save(Credential { id: 2, user_id: 7, credential_id: vec![2], public_key: vec![] })
        .expect("save");
    assert_eq!(s.len(), 2);
    assert_eq!(s.get(0).id, 1);
    assert_eq!(s.get(1).id, 2);
    assert_eq!(s.count_for_user(7), 2);
}

#[test]
fn byte_equality_is_exact() {
    assert!(bytes_eq(&[], &[]));
    assert!(bytes_eq(&[1, 2, 3], &[1, 2, 3]));
    assert!(!bytes_eq(&[1, 2, 3], &[1, 2]));
    assert!(!bytes_eq(&[1, 2, 3], &[1, 2, 4]));
}
