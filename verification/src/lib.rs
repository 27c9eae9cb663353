//! HPKE: hybrid public-key encryption built from a KEM, a KDF and an AEAD,
//! following the RFC 9180 construction.
//!
//! A sender encapsulates a shared secret to a recipient public key, both
//! sides run the key schedule to derive an AEAD key, a base nonce and an
//! exporter secret, and then exchange a sequence of sealed messages.
use vstd::prelude::*;

pub mod algs;
pub mod util;
pub mod kdf;
pub mod curves;
pub mod kem;
pub mod aead;
pub mod op_mode;
pub mod setup;
pub mod kat;
pub mod laws;

verus! {

/// Every failure the engine can report. None of these is retried internally;
/// each is surfaced to the caller.
#[derive(Clone, Copy, Debug, PartialEq, Eq, Structural)]
pub enum HpkeError {
    /// A key, secret or encapsulated key had the wrong length or failed
    /// group validation.
    DecodeError,
    /// An operation mode was built without its required material.
    ModeValidationError,
    /// The KEM could not produce a shared secret on the sender side.
    EncapError,
    /// The KEM could not produce a shared secret on the receiver side.
    DecapError,
    /// AEAD tag verification failed; no plaintext is released.
    AuthenticationError,
    /// The sequence counter is exhausted; the context is permanently dead.
    SequenceOverflowError,
    /// A requested output length exceeds the HKDF expansion limit.
    ExportLengthError,
}

} // verus!
