//! Signature verifier: rebuilds the exact byte string a sender must have
//! signed, recovers the signing address, and the sender side that produces
//! such signatures.

use crate::codec::canonical_message;
use crate::codec::canonical_message_bytes;
use crate::codec::eth_signed_prefix;
use crate::codec::slice_range;
use crate::crypto::keccak256;
use crate::crypto::keccak_of;
use crate::crypto::pubkey_of;
use crate::crypto::recover_of;
use crate::crypto::recover_pubkey;
use crate::crypto::sig_of;
use crate::crypto::sign_hash;
use crate::errors::MixError;
use vstd::prelude::*;

verus! {

/// The 20-byte address of a public key: the low-order bytes of its digest.
pub open spec fn address_of_pubkey(pk: Seq<u8>) -> Seq<u8> {
    keccak_of(pk).subrange(12, 32)
}

/// The 32-byte hash a signature must cover: the digest of the framing
/// prefix followed by the digest of the canonical message.
pub open spec fn signed_hash(message: Seq<u8>) -> Seq<u8> {
    keccak_of(eth_signed_prefix() + keccak_of(message))
}

/// The signer address recovered from a signature over a canonical message,
/// or `None` when the signature is unrecoverable.
pub open spec fn signer_address(message: Seq<u8>, signature: Seq<u8>) -> Option<Seq<u8>> {
    match recover_of(signed_hash(message), signature) {
        Option::Some(pk) => Option::Some(address_of_pubkey(pk)),
        Option::None => Option::None,
    }
}

/// Builds the framing prefix as bytes.
fn eth_prefix_bytes() -> (r: Vec<u8>)
    ensures
        r@ == eth_signed_prefix(),
{
    let mut p: Vec<u8> = Vec::new();
    p.push(25);
    p.push(69);
    p.push(116);
    p.push(104);
    p.push(101);
    p.push(114);
    p.push(101);
    p.push(117);
    p.push(109);
    p.push(32);
    p.push(83);
    p.push(105);
    p.push(103);
    p.push(110);
    p.push(101);
    p.push(100);
    p.push(32);
    p.push(77);
    p.push(101);
    p.push(115);
    p.push(115);
    p.push(97);
    p.push(103);
    p.push(101);
    p.push(58);
    p.push(10);
    p.push(51);
    p.push(50);
    proof {
        assert(p@ =~= eth_signed_prefix());
    }
    p
}

/// Recovers the signer address for one entry: the signature must cover the
/// prefixed digest of the canonical message built from the claimed sender,
/// the amount, the encrypted recipient and the sender's public key.  An
/// unrecoverable signature is a hard verification failure.
pub fn verify_signature(
    signature: &Vec<u8>,
    sender: &Vec<u8>,
    amount: &Vec<u8>,
    enc_recipient: &Vec<u8>,
    user_pubkey: &Vec<u8>,
) -> (r: Result<Vec<u8>, MixError>)
    requires
        signature@.len() == 65,
    ensures
        ({
            let m = canonical_message(sender@, amount@, enc_recipient@, user_pubkey@);
            match r {
                Ok(addr) => signer_address(m, signature@) == Some(addr@) && addr@.len() == 20,
                Err(e) => signer_address(m, signature@) is None && e == MixError::SignatureInvalid,
            }
        }),
{
    let message = canonical_message_bytes(sender, amount, enc_recipient, user_pubkey);
    let inner = keccak256(message.as_slice());
    let mut prefixed = eth_prefix_bytes();
    crate::codec::append_bytes(&mut prefixed, &inner);
    let outer = keccak256(prefixed.as_slice());
    match recover_pubkey(outer.as_slice(), signature.as_slice()) {
        Some(pk) => {
            let h = keccak256(pk.as_slice());
            let addr = slice_range(&h, 12, 20);
            Ok(addr)
        },
        None => Err(MixError::SignatureInvalid),
    }
}

/// Signs the canonical message for one entry: the sender side of the
/// protocol, and the counterpart of `verify_signature`.
pub fn sign_entry(
    seckey: &Vec<u8>,
    sender: &Vec<u8>,
    amount: &Vec<u8>,
    enc_recipient: &Vec<u8>,
    user_pubkey: &Vec<u8>,
) -> (r: Result<Vec<u8>, MixError>)
    ensures
        ({
            let m = canonical_message(sender@, amount@, enc_recipient@, user_pubkey@);
            match r {
                Ok(s) => pubkey_of(seckey@) is Some && s@ == sig_of(seckey@, signed_hash(m))
                    && s@.len() == 65 && recover_of(signed_hash(m), s@) == pubkey_of(seckey@)
                    && signer_address(m, s@) == Some(
                    address_of_pubkey(pubkey_of(seckey@).unwrap()),
                ),
                Err(e) => pubkey_of(seckey@) is None && e == MixError::KeyDerivationFailed,
            }
        }),
{
    let message = canonical_message_bytes(sender, amount, enc_recipient, user_pubkey);
    let inner = keccak256(message.as_slice());
    let mut prefixed = eth_prefix_bytes();
    crate::codec::append_bytes(&mut prefixed, &inner);
    let outer = keccak256(prefixed.as_slice());
    match sign_hash(seckey.as_slice(), outer.as_slice()) {
        Some(s) => Ok(s),
        None => Err(MixError::KeyDerivationFailed),
    }
}

/// Signature round trip: a signature that recovers to the signer's public
/// key yields, through address recovery, exactly the address of that key.
pub proof fn lemma_sign_recover_round_trip(
    seckey: Seq<u8>,
    message: Seq<u8>,
    signature: Seq<u8>,
    pk: Seq<u8>,
)
    requires
        pubkey_of(seckey) == Some(pk),
        recover_of(signed_hash(message), signature) == pubkey_of(seckey),
    ensures
        signer_address(message, signature) == Some(address_of_pubkey(pk)),
{
}

} // verus!
