//! Key material manager: rebuilds the asymmetric key pair from the stored
//! secret key and derives per-counterparty shared secrets.

use crate::codec::clone_bytes;
use crate::crypto::derive_pubkey;
use crate::crypto::derive_shared_key;
use crate::crypto::pubkey_of;
use crate::crypto::shared_key_of;
use crate::errors::MixError;
use vstd::prelude::*;

verus! {

/// A key pair rebuilt deterministically from the stored secret key.  It is
/// recreated on demand rather than cached, so the secret is not held
/// decrypted longer than necessary.
pub struct KeyPair {
    /// The 32-byte secret key.
    pub seckey: Vec<u8>,
    /// The 64-byte uncompressed public key.
    pub pubkey: Vec<u8>,
}

impl KeyPair {
    /// A key pair is well formed when its public key is exactly the one
    /// derived from its secret key.
    pub open spec fn wf(&self) -> bool {
        pubkey_of(self.seckey@) == Some(self.pubkey@)
    }
}

/// Rebuilds the key pair from a raw secret key; fails when the key is not
/// a valid 32-byte curve scalar.
pub fn keypair_from_secret(seckey: &Vec<u8>) -> (r: Result<KeyPair, MixError>)
    ensures
        r is Ok <==> pubkey_of(seckey@) is Some,
        r matches Ok(kp) ==> kp.wf() && kp.seckey@ == seckey@ && Some(kp.pubkey@) == pubkey_of(
            seckey@,
        ) && kp.pubkey@.len() == 64,
        r matches Err(e) ==> e == MixError::KeyDerivationFailed,
{
    match derive_pubkey(seckey.as_slice()) {
        Some(pk) => Ok(KeyPair { seckey: clone_bytes(seckey), pubkey: pk }),
        None => Err(MixError::KeyDerivationFailed),
    }
}

/// Derives the Diffie-Hellman shared secret between a secret key and a
/// counterparty public key; fails when either key is invalid.
pub fn derive_shared_secret(seckey: &Vec<u8>, counterparty_pubkey: &Vec<u8>) -> (r: Result<
    Vec<u8>,
    MixError,
>)
    ensures
        r is Ok <==> shared_key_of(seckey@, counterparty_pubkey@) is Some,
        r matches Ok(k) ==> Some(k@) == shared_key_of(seckey@, counterparty_pubkey@) && k@.len()
            == 32,
        r matches Err(e) ==> e == MixError::KeyDerivationFailed,
{
    match derive_shared_key(seckey.as_slice(), counterparty_pubkey.as_slice()) {
        Some(k) => Ok(k),
        None => Err(MixError::KeyDerivationFailed),
    }
}

} // verus!
