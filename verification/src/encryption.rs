//! The authenticated-encryption capability behind each layer.
//!
//! The primitive itself (AES-256-GCM from the `aes_gcm` crate) is not
//! verified here. The trusted wrappers below state, over the name
//! `decrypt_of`, exactly what the library relies on: decryption is a pure
//! function of key and transported bytes, it fails closed, and a blob sealed
//! under a key decrypts back to its plaintext under that key.

use crate::error::CryptoError;
use vstd::prelude::*;

verus! {

/// Bytes one encryption layer adds to a payload: a 12-byte nonce carried in
/// front of the ciphertext plus the 16-byte authentication tag appended to it.
pub const LAYER_OVERHEAD: usize = 28;

/// The longest payload a single sealing call accepts. Beyond it the sealed
/// output could outgrow what a byte vector may hold.
pub const SEAL_MAX_LEN: usize = usize::MAX / 2 - 28;

/// What authenticated decryption yields for a given key and transported blob
/// (nonce, then ciphertext and tag): the recovered plaintext, or nothing when
/// authentication fails. AES-256-GCM decryption is a pure function of these
/// two inputs, so its result bears a name rather than a page-long definition.
pub uninterp spec fn decrypt_of(key: Seq<u8>, data: Seq<u8>) -> Option<Seq<u8>>;

/// Relies on `aes_gcm::Aes256Gcm` (AES-256-GCM, 12-byte nonce, 16-byte tag):
/// seals the plaintext under `key` with a fresh random nonce and carries the
/// nonce in front of the ciphertext, so `aead_decrypt` under the same key
/// recovers exactly the plaintext. Sealing refuses only payloads beyond the
/// AES-GCM plaintext bound of 2^36 - 32 bytes.
#[verifier::external_body]
pub(crate) fn aead_encrypt(key: &[u8; 32], plaintext: &[u8]) -> (r: Result<
    Vec<u8>,
    CryptoError,
>)
    requires
        plaintext@.len() <= SEAL_MAX_LEN as int,
    ensures
        match r {
            Ok(sealed) => decrypt_of(key@, sealed@) == Some(plaintext@) && sealed@.len()
                == plaintext@.len() + LAYER_OVERHEAD as int,
            Err(e) => e == CryptoError::EncryptionError,
        },
        plaintext@.len() <= 0xF_FFFF_FFE0 ==> r is Ok,
{
    let cipher = <aes_gcm::Aes256Gcm as aes_gcm::KeyInit>::new(&(*key).into());
    let nonce = <aes_gcm::aead::Nonce<aes_gcm::Aes256Gcm> as aes_gcm::aead::Generate>::generate();
    match aes_gcm::aead::Aead::encrypt(&cipher, &nonce, plaintext) {
        Ok(sealed) => {
            let mut out = nonce.to_vec();
            out.extend_from_slice(&sealed);
            Ok(out)
        },
        Err(_) => Err(CryptoError::EncryptionError),
    }
}

/// Relies on `aes_gcm::Aes256Gcm`: splits the 12-byte nonce off the front of
/// `data`, then decrypts and authenticates the remainder under `key`. The
/// outcome is a pure function of `key` and `data`; on wrong key, tampered or
/// truncated input it fails closed and returns no bytes.
#[verifier::external_body]
pub(crate) fn aead_decrypt(key: &[u8; 32], data: &[u8]) -> (r: Result<
    Vec<u8>,
    CryptoError,
>)
    ensures
        match r {
            Ok(plain) => decrypt_of(key@, data@) == Some(plain@),
            Err(e) => e == CryptoError::DecryptionError && decrypt_of(key@, data@) is None,
        },
{
    let cipher = <aes_gcm::Aes256Gcm as aes_gcm::KeyInit>::new(&(*key).into());
    match data.split_at_checked(12) {
        Some((nonce, sealed)) => {
            match <&aes_gcm::aead::Nonce<aes_gcm::Aes256Gcm>>::try_from(nonce) {
                Ok(nonce) => aes_gcm::aead::Aead::decrypt(&cipher, nonce, sealed).map_err(
                    |_| CryptoError::DecryptionError,
                ),
                Err(_) => Err(CryptoError::DecryptionError),
            }
        },
        None => Err(CryptoError::DecryptionError),
    }
}

/// Relies on std's `TryFrom<&[u8]>` for 32-byte arrays: it succeeds exactly
/// on slices of length 32 and copies the bytes unchanged.
#[verifier::external_body]
pub(crate) fn copy_key(bytes: &[u8]) -> (r: Option<[u8; 32]>)
    ensures
        match r {
            Some(key) => bytes@.len() == 32 && key@ == bytes@,
            None => bytes@.len() != 32,
        },
{
    <[u8; 32]>::try_from(bytes).ok()
}

} // verus!
