//! The error taxonomy of the layered encryptor.

use vstd::prelude::*;

verus! {

/// Everything that can go wrong while building or using a layered encryptor.
#[derive(Clone, Copy, Debug, PartialEq, Eq, Structural)]
pub enum CryptoError {
    /// A supplied key does not have the required fixed length.
    /// Raised at layer-construction time; the hop must be rejected.
    InvalidKeyLength,
    /// The underlying encryption primitive refused to seal a payload.
    /// Raised by `wrap`; no partial ciphertext is ever returned.
    EncryptionError,
    /// A peel was requested on an encryptor that holds no layer.
    /// Signals a misconfigured relay; a fatal precondition violation.
    NoLayersError,
    /// The ciphertext could not be authenticated and decrypted with the held
    /// key (wrong key, tampered or truncated input). Fatal for this message
    /// at this hop; no unauthenticated output is ever returned.
    DecryptionError,
}

} // verus!
