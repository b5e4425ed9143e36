//! Message codec: fixed-width packed arrays, the canonical signed message,
//! and the hex encoding used for the stored settlement-contract address.

use vstd::prelude::*;

verus! {

/// Width in bytes of one sender or recipient address.
pub const SENDER_SIZE: usize = 20;

/// Width in bytes of the big-endian amount encoding.
pub const AMOUNT_SIZE: usize = 32;

/// Width in bytes of one public key: an uncompressed curve point without a
/// format prefix byte.
pub const PUB_KEY_SIZE: usize = 64;

/// Width in bytes of one encrypted recipient entry: 42 plaintext bytes plus
/// a 16-byte authentication tag and a 12-byte nonce.
pub const ENC_RECIPIENT_SIZE: usize = 70;

/// Width in bytes of one recoverable signature: r, s, and a recovery id.
pub const SIG_SIZE: usize = 65;

/// Width in bytes of a deal identifier.
pub const DEAL_ID_SIZE: usize = 32;

/// The eight-byte big-endian encoding of a field width below 256.  Every
/// field of the canonical signed message is preceded by its type's fixed
/// width in this form.
pub open spec fn len_prefix(n: u8) -> Seq<u8> {
    seq![0u8, 0u8, 0u8, 0u8, 0u8, 0u8, 0u8, n]
}

/// The fixed 28-byte framing prefix of off-chain signed messages: the byte
/// 0x19 followed by the ASCII text "Ethereum Signed Message:\n32", announcing
/// that a 32-byte hash follows.
pub open spec fn eth_signed_prefix() -> Seq<u8> {
    seq![
        25u8, 69u8, 116u8, 104u8, 101u8, 114u8, 101u8, 117u8, 109u8, 32u8, 83u8, 105u8, 103u8,
        110u8, 101u8, 100u8, 32u8, 77u8, 101u8, 115u8, 115u8, 97u8, 103u8, 101u8, 58u8, 10u8,
        51u8, 50u8,
    ]
}

/// The exact byte string a sender must have signed over for one entry: each
/// field preceded by its type's fixed width as an eight-byte big-endian
/// integer, in the fixed order sender, amount, encrypted recipient, public
/// key.
pub open spec fn canonical_message(
    sender: Seq<u8>,
    amount: Seq<u8>,
    enc_recipient: Seq<u8>,
    user_pubkey: Seq<u8>,
) -> Seq<u8> {
    len_prefix(20) + sender + len_prefix(32) + amount + len_prefix(70) + enc_recipient + len_prefix(
        64,
    ) + user_pubkey
}

/// Entry `i` of a packed array whose entries are `stride` bytes wide.
pub open spec fn entry_at(data: Seq<u8>, i: int, stride: int) -> Seq<u8> {
    data.subrange(i * stride, (i + 1) * stride)
}

/// A batch is well formed when each packed array holds exactly `nb` entries
/// of its fixed width.
pub open spec fn batch_wf(
    nb: nat,
    pub_keys: Seq<u8>,
    enc_recipients: Seq<u8>,
    senders: Seq<u8>,
    signatures: Seq<u8>,
) -> bool {
    &&& pub_keys.len() == nb * PUB_KEY_SIZE
    &&& enc_recipients.len() == nb * ENC_RECIPIENT_SIZE
    &&& senders.len() == nb * SENDER_SIZE
    &&& signatures.len() == nb * SIG_SIZE
}

/// The lowercase hex digit for a value below 16.
pub open spec fn hex_digit(n: int) -> char {
    if n == 0 {
        '0'
    } else if n == 1 {
        '1'
    } else if n == 2 {
        '2'
    } else if n == 3 {
        '3'
    } else if n == 4 {
        '4'
    } else if n == 5 {
        '5'
    } else if n == 6 {
        '6'
    } else if n == 7 {
        '7'
    } else if n == 8 {
        '8'
    } else if n == 9 {
        '9'
    } else if n == 10 {
        'a'
    } else if n == 11 {
        'b'
    } else if n == 12 {
        'c'
    } else if n == 13 {
        'd'
    } else if n == 14 {
        'e'
    } else {
        'f'
    }
}

/// The lowercase hex encoding of a byte string, two digits per byte, high
/// nibble first.
pub open spec fn hex_of(b: Seq<u8>) -> Seq<char>
    decreases b.len(),
{
    if b.len() == 0 {
        Seq::<char>::empty()
    } else {
        seq![hex_digit(b[0] as int / 16), hex_digit(b[0] as int % 16)] + hex_of(b.drop_first())
    }
}

/// Appends the whole of `src` to `dst`.
pub fn append_bytes(dst: &mut Vec<u8>, src: &Vec<u8>)
    ensures
        final(dst)@ == old(dst)@ + src@,
{
    let mut k: usize = 0;
    while k < src.len()
        invariant
            k <= src@.len(),
            dst@ == old(dst)@ + src@.subrange(0, k as int),
        decreases src@.len() - k,
    {
        dst.push(src[k]);
        proof {
            assert(dst@ =~= old(dst)@ + src@.subrange(0, k as int + 1));
        }
        k = k + 1;
    }
    proof {
        assert(dst@ =~= old(dst)@ + src@);
    }
}

/// Appends the canonical eight-byte length prefix for a field width.
fn push_len_prefix(out: &mut Vec<u8>, n: u8)
    ensures
        final(out)@ == old(out)@ + len_prefix(n),
{
    out.push(0);
    out.push(0);
    out.push(0);
    out.push(0);
    out.push(0);
    out.push(0);
    out.push(0);
    out.push(n);
    proof {
        assert(out@ =~= old(out)@ + len_prefix(n));
    }
}

/// Builds the canonical signed message for one entry.
pub fn canonical_message_bytes(
    sender: &Vec<u8>,
    amount: &Vec<u8>,
    enc_recipient: &Vec<u8>,
    user_pubkey: &Vec<u8>,
) -> (r: Vec<u8>)
    ensures
        r@ == canonical_message(sender@, amount@, enc_recipient@, user_pubkey@),
{
    let mut m: Vec<u8> = Vec::new();
    push_len_prefix(&mut m, 20);
    append_bytes(&mut m, sender);
    push_len_prefix(&mut m, 32);
    append_bytes(&mut m, amount);
    push_len_prefix(&mut m, 70);
    append_bytes(&mut m, enc_recipient);
    push_len_prefix(&mut m, 64);
    append_bytes(&mut m, user_pubkey);
    proof {
        assert(m@ =~= canonical_message(sender@, amount@, enc_recipient@, user_pubkey@));
    }
    m
}

/// Copies `len` bytes of `src` starting at `start` into a fresh vector.
pub fn slice_range(src: &Vec<u8>, start: usize, len: usize) -> (r: Vec<u8>)
    requires
        start + len <= src@.len(),
    ensures
        r@ == src@.subrange(start as int, start as int + len as int),
{
    let mut r: Vec<u8> = Vec::new();
    let mut k: usize = 0;
    while k < len
        invariant
            start + len <= src.len(),
            k <= len,
            r@ == src@.subrange(start as int, start as int + k as int),
        decreases len - k,
    {
        r.push(src[start + k]);
        proof {
            assert(r@ =~= src@.subrange(start as int, start as int + k as int + 1));
        }
        k = k + 1;
    }
    r
}

/// Compares two byte vectors for equality of their contents.
pub fn bytes_eq(a: &Vec<u8>, b: &Vec<u8>) -> (r: bool)
    ensures
        r == (a@ == b@),
{
    if a.len() != b.len() {
        return false;
    }
    let mut k: usize = 0;
    while k < a.len()
        invariant
            a@.len() == b@.len(),
            k <= a@.len(),
            forall|j: int| 0 <= j < k ==> a@[j] == b@[j],
        decreases a@.len() - k,
    {
        if a[k] != b[k] {
            return false;
        }
        k = k + 1;
    }
    proof {
        assert(a@ =~= b@);
    }
    true
}

/// Copies a byte vector.
pub fn clone_bytes(src: &Vec<u8>) -> (r: Vec<u8>)
    ensures
        r@ == src@,
{
    let r = slice_range(src, 0, src.len());
    proof {
        assert(src@.subrange(0, src@.len() as int) =~= src@);
    }
    r
}

/// Checks that each packed array holds exactly `nb` entries of its width.
/// The whole batch is validated once, before any entry is processed.
pub fn validate_batch(
    nb: usize,
    pub_keys: &Vec<u8>,
    enc_recipients: &Vec<u8>,
    senders: &Vec<u8>,
    signatures: &Vec<u8>,
) -> (r: bool)
    ensures
        r == batch_wf(nb as nat, pub_keys@, enc_recipients@, senders@, signatures@),
{
    (pub_keys.len() as u128 == nb as u128 * PUB_KEY_SIZE as u128)
        && (enc_recipients.len() as u128 == nb as u128 * ENC_RECIPIENT_SIZE as u128)
        && (senders.len() as u128 == nb as u128 * SENDER_SIZE as u128)
        && (signatures.len() as u128 == nb as u128 * SIG_SIZE as u128)
}

} // verus!
