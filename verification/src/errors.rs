//! The error taxonomy of the registration core.

use vstd::prelude::*;

verus! {

/// Why a registration operation failed.
///
/// `MalformedInput` and `VerificationFailed` are faults of the caller's
/// input; `CeremonyNotFound` reports a ceremony that never existed, was
/// already consumed, or expired (deliberately collapsed into one outward
/// signal, so that a caller cannot probe why a ceremony is gone); the
/// remaining variants are infrastructure faults.
#[derive(Clone, Copy, Debug, PartialEq, Eq, Structural)]
pub enum RegistrationError {
    /// The ceremony identifier does not parse.
    MalformedInput,
    /// The ceremony is absent, expired, or already consumed.
    CeremonyNotFound,
    /// The authenticator's response did not verify against the challenge.
    VerificationFailed,
    /// The challenge-generation primitive errored.
    ChallengeGenerationFailed,
    /// A stored ceremony state could not be decoded again.
    StateCorrupted,
    /// A value could not be encoded to its durable binary form.
    SerializationFailed,
    /// A store rejected a write.
    PersistenceFailed,
}

impl RegistrationError {
    /// True exactly for the infrastructure faults, which a caller should
    /// surface as an opaque server-side failure; the others describe the
    /// request itself.
    pub fn is_infrastructure_fault(&self) -> (r: bool)
        ensures
            r == (*self == RegistrationError::ChallengeGenerationFailed
                || *self == RegistrationError::StateCorrupted
                || *self == RegistrationError::SerializationFailed
                || *self == RegistrationError::PersistenceFailed),
    {
        match self {
            RegistrationError::ChallengeGenerationFailed => true,
            RegistrationError::StateCorrupted => true,
            RegistrationError::SerializationFailed => true,
            RegistrationError::PersistenceFailed => true,
            _ => false,
        }
    }
}

} // verus!
