//! Recipient decryptor: authenticated symmetric decryption of an encrypted
//! recipient entry under a per-sender shared secret, and the sender side
//! that produces such entries.

use crate::codec::append_bytes;
use crate::codec::slice_range;
use crate::codec::ENC_RECIPIENT_SIZE;
use crate::crypto::gcm_decrypt;
use crate::crypto::gcm_encrypt;
use crate::crypto::gcm_plain_of;
use crate::errors::MixError;
use vstd::prelude::*;

verus! {

/// The plaintext carried by an encrypted recipient entry, or `None` when
/// authentication fails.  The final 12 bytes of the entry are the nonce,
/// the rest is the authenticated ciphertext; anything too short to hold a
/// tag and a nonce carries nothing.
pub open spec fn plaintext_of(key: Seq<u8>, cipheriv: Seq<u8>) -> Option<Seq<u8>> {
    if cipheriv.len() >= 28 {
        gcm_plain_of(
            key,
            cipheriv.subrange(cipheriv.len() - 12, cipheriv.len() as int),
            cipheriv.subrange(0, cipheriv.len() - 12),
        )
    } else {
        Option::None
    }
}

/// The recipient address carried by an entry: the leading 20 bytes of the
/// plaintext.  Padding beyond them is discarded; a plaintext too short to
/// hold an address carries none.
pub open spec fn recipient_of(key: Seq<u8>, cipheriv: Seq<u8>) -> Option<Seq<u8>> {
    match plaintext_of(key, cipheriv) {
        Option::Some(p) => if p.len() >= 20 {
            Option::Some(p.take(20))
        } else {
            Option::None
        },
        Option::None => Option::None,
    }
}

/// Decrypts one encrypted recipient entry with the shared secret derived
/// for its sender.  Failure of the authentication tag is the mechanism that
/// binds a recipient to exactly one sender's key pair.
pub fn decrypt_recipient(enc_recipient: &Vec<u8>, shared_key: &Vec<u8>) -> (r: Result<
    Vec<u8>,
    MixError,
>)
    requires
        shared_key@.len() == 32,
        enc_recipient@.len() == ENC_RECIPIENT_SIZE,
    ensures
        match r {
            Ok(a) => recipient_of(shared_key@, enc_recipient@) == Some(a@) && a@.len() == 20,
            Err(e) => recipient_of(shared_key@, enc_recipient@) is None && e
                == MixError::DecryptionFailed,
        },
{
    let n = enc_recipient.len();
    let iv = slice_range(enc_recipient, n - 12, 12);
    let ct = slice_range(enc_recipient, 0, n - 12);
    match gcm_decrypt(shared_key.as_slice(), iv.as_slice(), ct.as_slice()) {
        Some(p) => {
            if p.len() >= 20 {
                let addr = slice_range(&p, 0, 20);
                proof {
                    assert(p@.subrange(0, 20) =~= p@.take(20));
                }
                Ok(addr)
            } else {
                Err(MixError::DecryptionFailed)
            }
        },
        None => Err(MixError::DecryptionFailed),
    }
}

/// Encrypts a recipient address, padded to the fixed plaintext width, under
/// a shared secret and a 12-byte nonce: the sender side of the protocol.
/// Decrypting the entry with the same secret yields the address back.
pub fn encrypt_recipient(
    recipient: &Vec<u8>,
    padding: &Vec<u8>,
    shared_key: &Vec<u8>,
    iv: &Vec<u8>,
) -> (r: Vec<u8>)
    requires
        recipient@.len() == 20,
        padding@.len() == 22,
        shared_key@.len() == 32,
        iv@.len() == 12,
    ensures
        r@.len() == ENC_RECIPIENT_SIZE,
        plaintext_of(shared_key@, r@) == Some(recipient@ + padding@),
        recipient_of(shared_key@, r@) == Some(recipient@),
{
    let mut plain: Vec<u8> = Vec::new();
    append_bytes(&mut plain, recipient);
    append_bytes(&mut plain, padding);
    proof {
        assert(plain@ =~= recipient@ + padding@);
    }
    let mut out = match gcm_encrypt(shared_key.as_slice(), iv.as_slice(), plain.as_slice()) {
        Some(c) => c,
        None => vstd::pervasive::unreached(),
    };
    let ghost cv = out@;
    append_bytes(&mut out, iv);
    proof {
        assert(out@.subrange(58, 70) =~= iv@);
        assert(out@.subrange(0, 58) =~= cv);
        assert((recipient@ + padding@).take(20) =~= recipient@);
    }
    out
}

/// Round trip: any entry whose plaintext is a recipient address followed by
/// padding decrypts to exactly that address, whatever the padding.
pub proof fn lemma_encrypt_decrypt_round_trip(
    shared_key: Seq<u8>,
    cipheriv: Seq<u8>,
    recipient: Seq<u8>,
    padding: Seq<u8>,
)
    requires
        recipient.len() == 20,
        plaintext_of(shared_key, cipheriv) == Some(recipient + padding),
    ensures
        recipient_of(shared_key, cipheriv) == Some(recipient),
{
    assert((recipient + padding).take(20) =~= recipient);
}

} // verus!
