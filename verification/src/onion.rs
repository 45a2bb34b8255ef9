//! Multi-layer encryption for onion routing.
//!
//! A client wraps a payload once per hop, innermost layer last-added; each
//! relay peels exactly one layer with its own key, so no single relay ever
//! sees both the plaintext and the route.

use crate::encryption::{aead_decrypt, aead_encrypt, copy_key, decrypt_of};
use crate::encryption::{LAYER_OVERHEAD, SEAL_MAX_LEN};
use crate::error::CryptoError;
use vstd::prelude::*;

verus! {

/// What remains of a transported blob after peeling one layer per key, in key
/// order: the first key opens the outermost layer, the next key the one
/// beneath it, and so on inward. `None` as soon as one layer fails to
/// authenticate.
pub open spec fn peel_all(keys: Seq<Seq<u8>>, data: Seq<u8>) -> Option<Seq<u8>>
    decreases keys.len(),
{
    if keys.len() == 0 {
        Some(data)
    } else {
        match decrypt_of(keys[0], data) {
            Some(inner) => peel_all(keys.drop_first(), inner),
            None => None,
        }
    }
}

/// An ordered sequence of per-hop encryption layers, each bound to one
/// 256-bit key. Index 0 is the key of the first hop the wrapped message will
/// reach; the last index is the innermost layer.
pub struct OnionRouter {
    layers: Vec<[u8; 32]>,
}

impl View for OnionRouter {
    type V = Seq<Seq<u8>>;

    /// The ordered per-hop keys.
    closed spec fn view(&self) -> Seq<Seq<u8>> {
        self.layers@.map(|i: int, key: [u8; 32]| key@)
    }
}

impl OnionRouter {
    /// Creates a new onion router with no encryption layers.
    pub fn new() -> (r: Self)
        ensures
            r@.len() == 0,
    {
        OnionRouter { layers: Vec::new() }
    }

    /// Appends an encryption layer for the next relay hop.
    pub fn add_layer(&mut self, key: &[u8; 32])
        ensures
            final(self)@ == old(self)@.push(key@),
            final(self)@.len() == old(self)@.len() + 1,
    {
        self.layers.push(*key);
        proof {
            assert(self@ =~= old(self)@.push(key@));
        }
    }

    /// Appends an encryption layer for the next relay hop, taking the key as
    /// a plain byte slice. A slice of any length other than 32 is rejected
    /// with `InvalidKeyLength` and the encryptor is left unchanged.
    pub fn add_layer_checked(&mut self, key: &[u8]) -> (r: Result<(), CryptoError>)
        ensures
            match r {
                Ok(_) => key@.len() == 32 && final(self)@ == old(self)@.push(key@),
                Err(e) => e == CryptoError::InvalidKeyLength && key@.len() != 32 && final(self)@
                    == old(self)@,
            },
    {
        match copy_key(key) {
            Some(owned) => {
                self.layers.push(owned);
                proof {
                    assert(self@ =~= old(self)@.push(key@));
                }
                Ok(())
            },
            None => Err(CryptoError::InvalidKeyLength),
        }
    }

    /// Encrypts data with all layers (client perspective).
    ///
    /// Layers are applied in reverse order — last-added layer first — so that
    /// the first hop's key opens the outermost layer: peeling the result once
    /// per key, in hop order, recovers `data` (that is what `peel_all` says).
    /// An encryptor with no layers wraps as the identity. Each layer grows
    /// the payload by a fixed overhead, so with at least one layer the output
    /// always differs from the input. `wrap` fails, with `EncryptionError`
    /// and no partial output, only when a layer refuses to seal; on payloads
    /// within the sealing bound it succeeds.
    pub fn wrap(&self, data: &[u8]) -> (r: Result<Vec<u8>, CryptoError>)
        ensures
            match r {
                Ok(wrapped) => peel_all(self@, wrapped@) == Some(data@) && wrapped@.len()
                    == data@.len() + LAYER_OVERHEAD as int * self@.len() && (self@.len() == 0
                    ==> wrapped@ == data@) && (self@.len() > 0 ==> wrapped@ != data@),
                Err(e) => e == CryptoError::EncryptionError && self@.len() > 0,
            },
            self@.len() == 0 ==> r is Ok,
            data@.len() + LAYER_OVERHEAD as int * self@.len() <= SEAL_MAX_LEN as int && data@.len()
                + LAYER_OVERHEAD as int * self@.len() <= 0xF_FFFF_FFE0 ==> r is Ok,
    {
        let mut result: Vec<u8> = vstd::slice::slice_to_vec(data);
        let n: usize = self.layers.len();
        let mut i: usize = n;

        while i > 0
            invariant
                i <= n,
                n == self.layers.len(),
                peel_all(self@.subrange(i as int, n as int), result@) == Some(data@),
                result@.len() == data@.len() + LAYER_OVERHEAD as int * (n - i),
            decreases i,
        {
            i = i - 1;
            if result.len() > SEAL_MAX_LEN {
                return Err(CryptoError::EncryptionError);
            }
            match aead_encrypt(&self.layers[i], &result) {
                Ok(sealed) => {
                    proof {
                        let keys = self@.subrange(i as int, n as int);
                        assert(keys.drop_first() =~= self@.subrange(i as int + 1, n as int));
                    }
                    result = sealed;
                },
                Err(e) => {
                    return Err(e);
                },
            }
        }
        proof {
            assert(self@.subrange(0, n as int) =~= self@);
        }
        Ok(result)
    }

    /// Decrypts one layer (relay perspective), using layer index 0 only.
    ///
    /// Succeeds exactly when the encryptor holds at least one layer and the
    /// blob authenticates under that first key, returning the payload with
    /// that one layer removed. With no layers it fails with `NoLayersError`;
    /// when authentication fails (wrong key, tampered or truncated input) it
    /// fails with `DecryptionError` and returns no bytes.
    pub fn unwrap_one(&self, data: &[u8]) -> (r: Result<Vec<u8>, CryptoError>)
        ensures
            match r {
                Ok(peeled) => self@.len() > 0 && decrypt_of(self@[0], data@) == Some(peeled@),
                Err(e) => (e == CryptoError::NoLayersError && self@.len() == 0) || (e
                    == CryptoError::DecryptionError && self@.len() > 0 && decrypt_of(
                    self@[0],
                    data@,
                ) is None),
            },
            self@.len() == 0 <==> r == Err::<Vec<u8>, CryptoError>(CryptoError::NoLayersError),
    {
        if self.layers.len() == 0 {
            return Err(CryptoError::NoLayersError);
        }
        aead_decrypt(&self.layers[0], data)
    }

    /// Returns the number of encryption layers.
    pub fn layer_count(&self) -> (r: usize)
        ensures
            r == self@.len(),
    {
        self.layers.len()
    }
}

impl Default for OnionRouter {
    /// A default encryptor holds no layers.
    fn default() -> (r: Self)
        ensures
            r@.len() == 0,
    {
        OnionRouter::new()
    }
}

/// Law: the zero-layer transform is the identity. With no keys, a blob peels
/// to exactly itself and to nothing else.
pub proof fn lemma_peel_all_empty(keys: Seq<Seq<u8>>, data: Seq<u8>, payload: Seq<u8>)
    requires
        keys.len() == 0,
    ensures
        peel_all(keys, data) == Some(payload) <==> data == payload,
{
}

/// Law (round trip, hop by hop): a blob that peels through the ordered keys
/// to a payload yields, after one decryption with the first key — the step a
/// single-layer relay's `unwrap_one` performs — an intermediate that peels
/// through the remaining keys to the same payload. Applied once per hop,
/// starting from what `wrap` ensures, this is the full round trip.
pub proof fn lemma_round_trip_step(keys: Seq<Seq<u8>>, data: Seq<u8>, payload: Seq<u8>)
    requires
        keys.len() > 0,
        peel_all(keys, data) == Some(payload),
    ensures
        decrypt_of(keys[0], data) is Some,
        peel_all(keys.drop_first(), decrypt_of(keys[0], data)->Some_0) == Some(payload),
{
}

} // verus!
