//! The trusted boundary to the cryptographic crates.
//!
//! Every function here is `external_body`: its body makes one outside
//! computation and converts arguments and results, and its contract names
//! the result through an uninterpreted spec function.  Each such name stands
//! for a value that depends on the function's arguments alone, so the same
//! inputs name the same result everywhere.

use crate::codec::hex_of;
use aes_gcm::aead::Aead;
use aes_gcm::Aes256Gcm;
use aes_gcm::KeyInit;
use libsecp256k1::Message;
use libsecp256k1::PublicKey;
use libsecp256k1::PublicKeyFormat;
use libsecp256k1::RecoveryId;
use libsecp256k1::SecretKey;
use libsecp256k1::SharedSecret;
use libsecp256k1::Signature;
use rustc_hex::ToHex;
use sha2::Sha256;
use vstd::prelude::*;

verus! {

/// The Keccak-256 digest of a byte string.
pub uninterp spec fn keccak_of(data: Seq<u8>) -> Seq<u8>;

/// The uncompressed public key derived from a secret key, or `None` when the
/// 32 bytes are not a valid curve scalar.
pub uninterp spec fn pubkey_of(seckey: Seq<u8>) -> Option<Seq<u8>>;

/// The Diffie-Hellman shared secret between a secret key and a counterparty
/// public key, or `None` when either key is invalid.
pub uninterp spec fn shared_key_of(seckey: Seq<u8>, pubkey: Seq<u8>) -> Option<Seq<u8>>;

/// The public key recovered from a recoverable signature over a 32-byte
/// message hash, or `None` when the signature is malformed or unrecoverable.
pub uninterp spec fn recover_of(msg_hash: Seq<u8>, signature: Seq<u8>) -> Option<Seq<u8>>;

/// The recoverable signature a secret key produces over a 32-byte message
/// hash.  Signing is deterministic: the nonce is derived from the key and
/// the hash.
pub uninterp spec fn sig_of(seckey: Seq<u8>, msg_hash: Seq<u8>) -> Seq<u8>;

/// The AES-256-GCM ciphertext (with trailing authentication tag) of a
/// plaintext under a key and a 12-byte nonce.
pub uninterp spec fn gcm_cipher_of(key: Seq<u8>, iv: Seq<u8>, plaintext: Seq<u8>) -> Seq<u8>;

/// The AES-256-GCM decryption of a ciphertext under a key and a 12-byte
/// nonce, or `None` when the authentication tag does not verify.
pub uninterp spec fn gcm_plain_of(key: Seq<u8>, iv: Seq<u8>, ciphertext: Seq<u8>) -> Option<
    Seq<u8>,
>;

/// Relies on sha3's `Keccak256`: a 32-byte digest depending on the input
/// bytes alone.
#[verifier::external_body]
pub(crate) fn keccak256(data: &[u8]) -> (r: Vec<u8>)
    ensures
        r@ == keccak_of(data@),
        r@.len() == 32,
{
    <sha3::Keccak256 as sha3::Digest>::digest(data).as_slice().to_vec()
}

/// Relies on libsecp256k1's `SecretKey::parse_slice` (rejects anything but a
/// valid 32-byte scalar), `PublicKey::from_secret_key` and
/// `PublicKey::serialize` (65 bytes, a format byte then the 64-byte point).
#[verifier::external_body]
pub(crate) fn derive_pubkey(seckey: &[u8]) -> (r: Option<Vec<u8>>)
    ensures
        r is Some <==> pubkey_of(seckey@) is Some,
        r matches Some(pk) ==> Some(pk@) == pubkey_of(seckey@) && pk@.len() == 64,
{
    let sk = SecretKey::parse_slice(seckey).ok()?;
    let pk = PublicKey::from_secret_key(&sk);
    Some(pk.serialize()[1..].to_vec())
}

/// Relies on libsecp256k1's `SecretKey::parse_slice`, `PublicKey::parse_slice`
/// with the raw 64-byte format, and `SharedSecret::new` with SHA-256: a
/// 32-byte secret determined by the two keys alone, or an error when either
/// key is invalid.
#[verifier::external_body]
pub(crate) fn derive_shared_key(seckey: &[u8], pubkey: &[u8]) -> (r: Option<Vec<u8>>)
    ensures
        r is Some <==> shared_key_of(seckey@, pubkey@) is Some,
        r matches Some(k) ==> Some(k@) == shared_key_of(seckey@, pubkey@) && k@.len() == 32,
{
    let sk = SecretKey::parse_slice(seckey).ok()?;
    let pk = PublicKey::parse_slice(pubkey, Some(PublicKeyFormat::Raw)).ok()?;
    let shared = SharedSecret::<Sha256>::new(&pk, &sk).ok()?;
    Some(shared.as_ref().to_vec())
}

/// Relies on libsecp256k1's `RecoveryId::parse` (final signature byte),
/// `Signature::parse_standard_slice` (the first 64 bytes) and `recover`:
/// the public key that produced the signature over the hash, or an error
/// when the signature is malformed or unrecoverable.
#[verifier::external_body]
pub(crate) fn recover_pubkey(msg_hash: &[u8], signature: &[u8]) -> (r: Option<Vec<u8>>)
    requires
        msg_hash@.len() == 32,
        signature@.len() == 65,
    ensures
        r is Some <==> recover_of(msg_hash@, signature@) is Some,
        r matches Some(pk) ==> Some(pk@) == recover_of(msg_hash@, signature@) && pk@.len() == 64,
{
    let msg = Message::parse_slice(msg_hash).ok()?;
    let rid = RecoveryId::parse(signature[64]).ok()?;
    let sig = Signature::parse_standard_slice(&signature[..64]).ok()?;
    let pk = libsecp256k1::recover(&msg, &sig, &rid).ok()?;
    Some(pk.serialize()[1..].to_vec())
}

/// Relies on libsecp256k1's `sign`: a deterministic recoverable signature,
/// serialized as r, s, recovery id.  `recover` on that signature returns the
/// signer's public key, which is what the final ensures clause states.
#[verifier::external_body]
pub(crate) fn sign_hash(seckey: &[u8], msg_hash: &[u8]) -> (r: Option<Vec<u8>>)
    requires
        msg_hash@.len() == 32,
    ensures
        r is Some <==> pubkey_of(seckey@) is Some,
        r matches Some(s) ==> s@ == sig_of(seckey@, msg_hash@) && s@.len() == 65 && recover_of(
            msg_hash@,
            s@,
        ) == pubkey_of(seckey@),
{
    let sk = SecretKey::parse_slice(seckey).ok()?;
    let msg = Message::parse_slice(msg_hash).ok()?;
    let (sig, rid) = libsecp256k1::sign(&msg, &sk);
    let mut out = sig.serialize().to_vec();
    out.push(rid.serialize());
    Some(out)
}

/// Relies on aes-gcm's `Aes256Gcm`: deterministic encryption under a key and
/// nonce, a postfix 16-byte tag, and decryption inverting it.  Encryption
/// fails only when the plaintext exceeds the AES-GCM length limit, far above
/// the bound stated here.
#[verifier::external_body]
pub(crate) fn gcm_encrypt(key: &[u8], iv: &[u8], plaintext: &[u8]) -> (r: Option<Vec<u8>>)
    requires
        key@.len() == 32,
        iv@.len() == 12,
    ensures
        plaintext@.len() < 0x10000000 ==> r is Some,
        r matches Some(c) ==> c@ == gcm_cipher_of(key@, iv@, plaintext@) && c@.len() == plaintext@.len()
            + 16 && gcm_plain_of(key@, iv@, c@) == Some(plaintext@),
{
    let cipher = Aes256Gcm::new_from_slice(key).ok()?;
    let nonce = aes_gcm::Nonce::try_from(iv).ok()?;
    cipher.encrypt(&nonce, plaintext).ok()
}

/// Relies on aes-gcm's `Aes256Gcm`: decryption under a key and nonce returns
/// the plaintext (16 bytes shorter than the ciphertext) exactly when the
/// authentication tag verifies.
#[verifier::external_body]
pub(crate) fn gcm_decrypt(key: &[u8], iv: &[u8], ciphertext: &[u8]) -> (r: Option<Vec<u8>>)
    requires
        key@.len() == 32,
        iv@.len() == 12,
    ensures
        r is Some <==> gcm_plain_of(key@, iv@, ciphertext@) is Some,
        r matches Some(p) ==> Some(p@) == gcm_plain_of(key@, iv@, ciphertext@) && p@.len() + 16
            == ciphertext@.len(),
{
    let cipher = Aes256Gcm::new_from_slice(key).ok()?;
    let nonce = aes_gcm::Nonce::try_from(iv).ok()?;
    cipher.decrypt(&nonce, ciphertext).ok()
}

/// Relies on rustc_hex's `ToHex`: two lowercase hex digits per byte, high
/// nibble first.
#[verifier::external_body]
pub(crate) fn to_hex_str(data: &[u8]) -> (r: String)
    ensures
        r@ == hex_of(data@),
{
    data.to_hex()
}

} // verus!
