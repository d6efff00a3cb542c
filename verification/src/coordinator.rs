//! The ceremony coordinator: the two-phase registration protocol.
//!
//! `begin` mints a challenge and durably binds the server-side protocol
//! state to a fresh ceremony identifier; `complete` consumes that state
//! exactly once — enforcing expiry and single use — verifies the
//! authenticator's response, and records the resulting credential.

use vstd::prelude::*;

use webauthn_rs::prelude::CreationChallengeResponse;
use webauthn_rs::prelude::RegisterPublicKeyCredential;
use webauthn_rs::prelude::Webauthn;

use crate::credentials::Credential;
use crate::credentials::CredentialStore;
use crate::credentials::has_duplicate;
use crate::errors::RegistrationError;
use crate::external;
use crate::external::b64url_of;
use crate::external::uuid_parse_of;
use crate::external::uuid_str_of;
use crate::store::CeremonyRecord;
use crate::store::CeremonyStore;
use crate::store::after_take;
use crate::store::take_succeeds;

verus! {

/// How long a ceremony stays consumable, in seconds.
pub const CEREMONY_TTL_SECONDS: u64 = 300;

/// What `begin` hands back to the caller: the ceremony identifier the
/// client must present again, and the challenge, safe to expose. The
/// protocol state and the bound user are never part of it — they stay
/// server-side, keyed by the ceremony identifier.
#[derive(Debug)]
pub struct RegistrationStart {
    /// The printable one-time ceremony identifier.
    pub ceremony_id: String,
    /// The challenge for the client authenticator.
    pub challenge: CreationChallengeResponse,
}

/// What a successful `complete` hands back: the credential that was
/// durably recorded.
#[derive(Debug)]
pub struct CompletedRegistration {
    /// Identifier of the stored credential record.
    pub credential_record_id: u128,
    /// The authenticator-issued credential identifier.
    pub credential_id: Vec<u8>,
    /// The same identifier in URL-safe unpadded base64.
    pub credential_id_encoded: String,
}

/// Orchestrates the two-phase protocol over the two stores. All state
/// lives in the stores; the coordinator itself only decides.
pub struct Coordinator {
    /// The verification-library handle used for challenge generation and
    /// response verification.
    pub webauthn: Webauthn,
    /// In-flight ceremonies, keyed by ceremony identifier.
    pub ceremonies: CeremonyStore,
    /// Finalized credentials.
    pub credentials: CredentialStore,
}

impl Coordinator {
    /// Well-formedness of the ceremony store's key index.
    pub open spec fn wf(&self) -> bool {
        self.ceremonies.wf()
    }

    /// A coordinator over empty stores.
    pub fn new(webauthn: Webauthn) -> (c: Coordinator)
        ensures
            c.wf(),
            c.ceremonies@ == Map::<u128, CeremonyRecord>::empty(),
            c.credentials@ == Seq::<Credential>::empty(),
    {
        Coordinator { webauthn, ceremonies: CeremonyStore::new(), credentials: CredentialStore::new() }
    }

    /// Starts a registration ceremony for `user_id`: generates a
    /// challenge, binds the resulting protocol state to a fresh ceremony
    /// identifier, and persists it with a five-minute expiry.
    ///
    /// On success, the returned printable ceremony identifier parses back
    /// to a key that was not previously in the store and now maps to a
    /// record bound to `user_id` and expiring at `now` plus the TTL. On
    /// any failure the stores are untouched.
    pub fn begin(&mut self, user_id: u128, display_name: &str, now: u64) -> (r: Result<
        RegistrationStart,
        RegistrationError,
    >)
        requires
            old(self).wf(),
            display_name@.len() > 0,
            now + CEREMONY_TTL_SECONDS <= u64::MAX,
        ensures
            final(self).wf(),
            final(self).credentials@ == old(self).credentials@,
            r matches Ok(start) ==> (uuid_parse_of(start.ceremony_id@) matches Some(id)
                && start.ceremony_id@ == uuid_str_of(id)
                && !old(self).ceremonies@.contains_key(id)
                && final(self).ceremonies@.contains_key(id)
                && final(self).ceremonies@ == old(self).ceremonies@.insert(
                    id,
                    final(self).ceremonies@[id],
                )
                && final(self).ceremonies@[id].id == id
                && final(self).ceremonies@[id].user_id == user_id
                && final(self).ceremonies@[id].expires_at == now + CEREMONY_TTL_SECONDS),
            r is Err ==> final(self).ceremonies@ == old(self).ceremonies@,
            r matches Err(e) ==> (e == RegistrationError::ChallengeGenerationFailed
                || e == RegistrationError::SerializationFailed
                || e == RegistrationError::PersistenceFailed),
    {
        let started = external::webauthn_start_registration(
            &self.webauthn,
            user_id,
            display_name,
            display_name,
        );
        let (challenge, reg_state) = match started {
            Some(p) => p,
            None => {
                return Err(RegistrationError::ChallengeGenerationFailed);
            },
        };
        let state_blob = match external::encode_registration_state(&reg_state) {
            Some(b) => b,
            None => {
                return Err(RegistrationError::SerializationFailed);
            },
        };
        let ceremony_id = external::fresh_uuid();
        match self.ceremonies.put(ceremony_id, user_id, state_blob, now + CEREMONY_TTL_SECONDS) {
            Ok(()) => {
                let printable = external::uuid_string(ceremony_id);
                Ok(RegistrationStart { ceremony_id: printable, challenge })
            },
            Err(e) => Err(e),
        }
    }

    /// Records a credential verified outside this call: the terminal step
    /// of `complete`, taking the verification library's outputs as plain
    /// values. Fails exactly when the user already holds a credential
    /// with this authenticator-issued identifier; otherwise the record is
    /// appended and echoed back with its base64 form.
    pub fn record_credential(
        &mut self,
        record_id: u128,
        user_id: u128,
        credential_id: Vec<u8>,
        public_key: Vec<u8>,
    ) -> (r: Result<CompletedRegistration, RegistrationError>)
        requires
            old(self).wf(),
        ensures
            final(self).wf(),
            final(self).ceremonies@ == old(self).ceremonies@,
            has_duplicate(old(self).credentials@, user_id, credential_id@) ==> (r == Err::<
                CompletedRegistration,
                RegistrationError,
            >(RegistrationError::PersistenceFailed)
                && final(self).credentials@ == old(self).credentials@),
            !has_duplicate(old(self).credentials@, user_id, credential_id@) ==> (r matches Ok(done)
                && final(self).credentials@ == old(self).credentials@.push(
                    (Credential { id: record_id, user_id, credential_id, public_key }),
                )
                && done.credential_record_id == record_id
                && done.credential_id@ == credential_id@
                && done.credential_id_encoded@ == b64url_of(credential_id@)),
    {
        let encoded = external::base64url_encode(credential_id.as_slice());
        let stored_id = copy_bytes(credential_id.as_slice());
        let cred = Credential { id: record_id, user_id, credential_id, public_key };
        match self.credentials.save(cred) {
            Ok(()) => Ok(
                CompletedRegistration {
                    credential_record_id: record_id,
                    credential_id: stored_id,
                    credential_id_encoded: encoded,
                },
            ),
            Err(e) => Err(e),
        }
    }

    /// Completes a registration ceremony: parses the printable ceremony
    /// identifier, atomically consumes the matching unexpired ceremony,
    /// verifies the authenticator's response against the stored protocol
    /// state, and records the credential for the user bound at `begin`.
    ///
    /// The contract mirrors the protocol's state machine:
    /// - a malformed identifier is rejected — and only then — with both
    ///   stores untouched;
    /// - an absent, expired or already-consumed ceremony reports "not
    ///   found", with both stores untouched;
    /// - a present, unexpired ceremony is deleted whatever happens next,
    ///   so a failed verification cannot be retried with the same
    ///   identifier;
    /// - only a fully successful run appends a credential, bound to the
    ///   ceremony's user.
    pub fn complete(
        &mut self,
        ceremony_id: &str,
        response: &RegisterPublicKeyCredential,
        now: u64,
    ) -> (r: Result<CompletedRegistration, RegistrationError>)
        requires
            old(self).wf(),
        ensures
            final(self).wf(),
            (uuid_parse_of(ceremony_id@) is None) <==> r == Err::<
                CompletedRegistration,
                RegistrationError,
            >(RegistrationError::MalformedInput),
            uuid_parse_of(ceremony_id@) is None ==> final(self).ceremonies@ == old(self).ceremonies@
                && final(self).credentials@ == old(self).credentials@,
            uuid_parse_of(ceremony_id@) matches Some(id) ==> final(self).ceremonies@ == after_take(
                old(self).ceremonies@,
                id,
                now,
            ),
            uuid_parse_of(ceremony_id@) matches Some(id) ==> (!take_succeeds(
                old(self).ceremonies@,
                id,
                now,
            ) ==> r == Err::<CompletedRegistration, RegistrationError>(
                RegistrationError::CeremonyNotFound,
            ) && final(self).credentials@ == old(self).credentials@),
            uuid_parse_of(ceremony_id@) matches Some(id) ==> (take_succeeds(
                old(self).ceremonies@,
                id,
                now,
            ) ==> ((r matches Ok(done)
                ==> final(self).credentials@.len() == old(self).credentials@.len() + 1
                && final(self).credentials@ == old(self).credentials@.push(
                    final(self).credentials@.last(),
                )
                && final(self).credentials@.last().user_id == old(self).ceremonies@[id].user_id
                && final(self).credentials@.last().id == done.credential_record_id
                && final(self).credentials@.last().credential_id@ == done.credential_id@
                && done.credential_id_encoded@ == b64url_of(done.credential_id@))
                && (r matches Err(e)
                ==> final(self).credentials@ == old(self).credentials@
                && (e == RegistrationError::StateCorrupted
                || e == RegistrationError::VerificationFailed
                || e == RegistrationError::SerializationFailed
                || e == RegistrationError::PersistenceFailed)))),
    {
        let id = match external::parse_uuid(ceremony_id) {
            Some(id) => id,
            None => {
                return Err(RegistrationError::MalformedInput);
            },
        };
        let (state_blob, user_id) = match self.ceremonies.take_if_valid(id, now) {
            Some(p) => p,
            None => {
                return Err(RegistrationError::CeremonyNotFound);
            },
        };
        let reg_state = match external::decode_registration_state(state_blob.as_slice()) {
            Some(s) => s,
            None => {
                return Err(RegistrationError::StateCorrupted);
            },
        };
        let passkey = match external::webauthn_finish_registration(
            &self.webauthn,
            response,
            &reg_state,
        ) {
            Some(p) => p,
            None => {
                return Err(RegistrationError::VerificationFailed);
            },
        };
        let public_key = match external::encode_passkey(&passkey) {
            Some(b) => b,
            None => {
                return Err(RegistrationError::SerializationFailed);
            },
        };
        let credential_id = external::passkey_credential_id(&passkey);
        let record_id = external::fresh_uuid();
        self.record_credential(record_id, user_id, credential_id, public_key)
    }
}

/// A fresh copy of a byte slice.
pub fn copy_bytes(src: &[u8]) -> (r: Vec<u8>)
    ensures
        r@ == src@,
{
    let n = src.len();
    let mut out: Vec<u8> = Vec::new();
    let mut i: usize = 0;
    while i < n
        invariant
            i <= n,
            n == src@.len(),
            out@ == src@.take(i as int),
        decreases n - i,
    {
        out.push(src[i]);
        proof {
            assert(out@ =~= src@.take(i + 1));
        }
        i += 1;
    }
    proof {
        assert(src@.take(n as int) =~= src@);
    }
    out
}

} // verus!
