//! Verified core of a passkey registration service.
//!
//! The library implements the ephemeral challenge-state protocol around
//! WebAuthn-style credential registration: `begin` mints a one-time
//! cryptographic challenge and stores the server-side ceremony state under a
//! fresh ceremony identifier; `complete` atomically consumes that state
//! (enforcing single use and expiry) and, when the authenticator's response
//! verifies, records the resulting credential.
//!
//! The cryptographic primitives, identifier generation and binary encodings
//! come from outside crates and are called through a small set of trusted
//! wrappers in [`external`]; everything around them — the stores, the
//! coordinator, and the single-use / expiry discipline — is verified.

pub mod catalog;
pub mod coordinator;
pub mod credentials;
pub mod errors;
pub mod external;
pub mod store;
