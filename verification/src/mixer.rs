//! The contract core: explicit two-phase state (uninitialized, then
//! constructed once), and the whole-deal pipeline — validate the batch,
//! authenticate and decrypt every entry, mix the recipient list.

use crate::codec::batch_wf;
use crate::codec::bytes_eq;
use crate::codec::canonical_message;
use crate::codec::clone_bytes;
use crate::codec::entry_at;
use crate::codec::hex_of;
use crate::codec::slice_range;
use crate::codec::validate_batch;
use crate::codec::AMOUNT_SIZE;
use crate::codec::DEAL_ID_SIZE;
use crate::codec::ENC_RECIPIENT_SIZE;
use crate::codec::PUB_KEY_SIZE;
use crate::codec::SENDER_SIZE;
use crate::codec::SIG_SIZE;
use crate::crypto::pubkey_of;
use crate::crypto::shared_key_of;
use crate::crypto::to_hex_str;
use crate::decryptor::decrypt_recipient;
use crate::decryptor::recipient_of;
use crate::errors::MixError;
use crate::keys::derive_shared_secret;
use crate::keys::keypair_from_secret;
use crate::shuffle::lemma_shuffle_permutes;
use crate::shuffle::lemma_shuffle_views_commute;
use crate::shuffle::shuffle;
use crate::shuffle::shuffle_spec;
use crate::shuffle::views_of;
use crate::sigverify::signer_address;
use crate::sigverify::verify_signature;
use vstd::prelude::*;

verus! {

/// The contract's persisted state: a settlement contract address and a
/// symmetric secret key, both absent until construction.
pub struct Contract {
    /// The persisted 32-byte secret key.
    pub key: Option<Vec<u8>>,
    /// The persisted 20-byte settlement contract address.
    pub eth_addr: Option<Vec<u8>>,
}

/// The outcome of processing one entry: derive the shared secret from the
/// sender's public key, decrypt the recipient with it, then verify the
/// signature against the claimed sender.  A missing or mismatching signer
/// is fatal for the whole batch.
pub open spec fn entry_outcome(
    key: Seq<u8>,
    amount: Seq<u8>,
    user_pubkey: Seq<u8>,
    enc_recipient: Seq<u8>,
    sender: Seq<u8>,
    signature: Seq<u8>,
) -> Result<Seq<u8>, MixError> {
    match shared_key_of(key, user_pubkey) {
        Option::None => Result::Err(MixError::KeyDerivationFailed),
        Option::Some(sk) => match recipient_of(sk, enc_recipient) {
            Option::None => Result::Err(MixError::DecryptionFailed),
            Option::Some(addr) => match signer_address(
                canonical_message(sender, amount, enc_recipient, user_pubkey),
                signature,
            ) {
                Option::None => Result::Err(MixError::SignatureInvalid),
                Option::Some(signer) => if signer == sender {
                    Result::Ok(addr)
                } else {
                    Result::Err(MixError::SignatureInvalid)
                },
            },
        },
    }
}

/// The outcome of entry `i` of a batch, slicing each packed array at its
/// fixed stride.
pub open spec fn batch_entry_outcome(
    key: Seq<u8>,
    amount: Seq<u8>,
    pub_keys: Seq<u8>,
    enc_recipients: Seq<u8>,
    senders: Seq<u8>,
    signatures: Seq<u8>,
    i: int,
) -> Result<Seq<u8>, MixError> {
    entry_outcome(
        key,
        amount,
        entry_at(pub_keys, i, PUB_KEY_SIZE as int),
        entry_at(enc_recipients, i, ENC_RECIPIENT_SIZE as int),
        entry_at(senders, i, SENDER_SIZE as int),
        entry_at(signatures, i, SIG_SIZE as int),
    )
}

/// The decrypted recipients of the first `n` entries, in submission order,
/// or the error of the first entry that fails.
pub open spec fn decrypt_entries(
    key: Seq<u8>,
    amount: Seq<u8>,
    pub_keys: Seq<u8>,
    enc_recipients: Seq<u8>,
    senders: Seq<u8>,
    signatures: Seq<u8>,
    n: nat,
) -> Result<Seq<Seq<u8>>, MixError>
    decreases n,
{
    if n == 0 {
        Result::Ok(Seq::<Seq<u8>>::empty())
    } else {
        match decrypt_entries(
            key,
            amount,
            pub_keys,
            enc_recipients,
            senders,
            signatures,
            (n - 1) as nat,
        ) {
            Result::Err(e) => Result::Err(e),
            Result::Ok(s) => match batch_entry_outcome(
                key,
                amount,
                pub_keys,
                enc_recipients,
                senders,
                signatures,
                n - 1,
            ) {
                Result::Err(e) => Result::Err(e),
                Result::Ok(a) => Result::Ok(s.push(a)),
            },
        }
    }
}

/// The outcome of a whole deal for a given key state, batch and seed: the
/// mixed recipient list, or the error of the first step that fails.
pub open spec fn deal_outcome(
    key: Option<Seq<u8>>,
    nb: nat,
    amount: Seq<u8>,
    pub_keys: Seq<u8>,
    enc_recipients: Seq<u8>,
    senders: Seq<u8>,
    signatures: Seq<u8>,
    seed: u64,
) -> Result<Seq<Seq<u8>>, MixError> {
    match key {
        Option::None => Result::Err(MixError::UninitializedState),
        Option::Some(k) => if !batch_wf(nb, pub_keys, enc_recipients, senders, signatures) {
            Result::Err(MixError::MalformedBatch)
        } else {
            match decrypt_entries(k, amount, pub_keys, enc_recipients, senders, signatures, nb) {
                Result::Err(e) => Result::Err(e),
                Result::Ok(rs) => Result::Ok(shuffle_spec(rs, seed)),
            }
        },
    }
}

/// A failed prefix decides the batch: once the first `n` entries fail, any
/// longer prefix fails the same way.
proof fn lemma_decrypt_entries_stops(
    key: Seq<u8>,
    amount: Seq<u8>,
    pub_keys: Seq<u8>,
    enc_recipients: Seq<u8>,
    senders: Seq<u8>,
    signatures: Seq<u8>,
    n: nat,
    m: nat,
)
    requires
        n <= m,
        decrypt_entries(key, amount, pub_keys, enc_recipients, senders, signatures, n) is Err,
    ensures
        decrypt_entries(key, amount, pub_keys, enc_recipients, senders, signatures, m)
            == decrypt_entries(key, amount, pub_keys, enc_recipients, senders, signatures, n),
    decreases m,
{
    if m > n {
        lemma_decrypt_entries_stops(
            key,
            amount,
            pub_keys,
            enc_recipients,
            senders,
            signatures,
            n,
            (m - 1) as nat,
        );
    }
}

/// An empty batch with a constructed key yields the empty recipient list,
/// whatever the seed, and no entry is processed.
pub proof fn lemma_empty_batch(key: Seq<u8>, amount: Seq<u8>, seed: u64)
    ensures
        deal_outcome(
            Some(key),
            0,
            amount,
            Seq::<u8>::empty(),
            Seq::<u8>::empty(),
            Seq::<u8>::empty(),
            Seq::<u8>::empty(),
            seed,
        ) == Result::<Seq<Seq<u8>>, MixError>::Ok(Seq::<Seq<u8>>::empty()),
{
}

impl Contract {
    /// Construction stores a 20-byte address and a 32-byte key, or nothing.
    pub open spec fn wf(&self) -> bool {
        &&& (self.key matches Some(k) ==> k@.len() == 32)
        &&& (self.eth_addr matches Some(a) ==> a@.len() == 20)
    }

    /// The persisted key, as bytes.
    pub open spec fn key_view(&self) -> Option<Seq<u8>> {
        match self.key {
            Option::Some(k) => Option::Some(k@),
            Option::None => Option::None,
        }
    }

    /// A mixer with no persisted state: construction has not happened.
    pub fn new() -> (r: Contract)
        ensures
            r.key is None,
            r.eth_addr is None,
            r.wf(),
    {
        Contract { key: None, eth_addr: None }
    }

    /// Stores the settlement contract address and a fresh symmetric key.
    /// The key must come from a secret random source.  Construction
    /// replaces any previous key silently; callers must guard against
    /// re-invocation administratively.
    pub fn construct(&mut self, mixer_eth_addr: &Vec<u8>, key: Vec<u8>)
        requires
            mixer_eth_addr@.len() == 20,
            key@.len() == 32,
        ensures
            final(self).key_view() == Some(key@),
            final(self).eth_addr matches Some(a) && a@ == mixer_eth_addr@,
            final(self).wf(),
    {
        self.key = Some(key);
        self.eth_addr = Some(clone_bytes(mixer_eth_addr));
    }

    /// Returns the canonical lowercase hex encoding of the stored
    /// settlement contract address, or the empty string before
    /// construction.
    pub fn get_mixer_eth_addr(&self) -> (r: String)
        ensures
            r@ == match self.eth_addr {
                Option::Some(a) => hex_of(a@),
                Option::None => Seq::<char>::empty(),
            },
    {
        match &self.eth_addr {
            Some(a) => to_hex_str(a.as_slice()),
            None => {
                let empty: Vec<u8> = Vec::new();
                to_hex_str(empty.as_slice())
            },
        }
    }

    /// Returns the public key derived from the persisted secret key; fails
    /// before construction, or when the stored key is malformed.
    pub fn get_pub_key(&self) -> (r: Result<Vec<u8>, MixError>)
        ensures
            r is Ok <==> (self.key matches Some(k) && pubkey_of(k@) is Some),
            r matches Ok(pk) ==> self.key matches Some(k) && Some(pk@) == pubkey_of(k@)
                && pk@.len() == 64,
            r matches Err(e) ==> e == if self.key is None {
                MixError::UninitializedState
            } else {
                MixError::KeyDerivationFailed
            },
    {
        match &self.key {
            None => Err(MixError::UninitializedState),
            Some(k) => match keypair_from_secret(k) {
                Ok(kp) => Ok(kp.pubkey),
                Err(e) => Err(e),
            },
        }
    }

    /// Runs one deal: validates the batch once, then for every entry
    /// derives the sender's shared secret, decrypts the recipient and
    /// verifies the signature against the claimed sender, and finally
    /// mixes the recipient list under the seed.  Any failure aborts the
    /// whole deal; the result is exactly `deal_outcome`, so the returned
    /// list is the seeded permutation of the decrypted recipients, with
    /// the same length and the same multiset of addresses.
    pub fn execute_deal(
        &self,
        deal_id: &Vec<u8>,
        nb_recipients: usize,
        amount: &Vec<u8>,
        pub_keys: &Vec<u8>,
        enc_recipients: &Vec<u8>,
        senders: &Vec<u8>,
        signatures: &Vec<u8>,
        seed: u64,
    ) -> (r: Result<Vec<Vec<u8>>, MixError>)
        requires
            self.wf(),
            deal_id@.len() == DEAL_ID_SIZE,
            amount@.len() == AMOUNT_SIZE,
        ensures
            ({
                let o = deal_outcome(
                    self.key_view(),
                    nb_recipients as nat,
                    amount@,
                    pub_keys@,
                    enc_recipients@,
                    senders@,
                    signatures@,
                    seed,
                );
                match r {
                    Ok(v) => o == Result::<Seq<Seq<u8>>, MixError>::Ok(views_of(v@)),
                    Err(e) => o == Result::<Seq<Seq<u8>>, MixError>::Err(e),
                }
            }),
            r matches Ok(v) ==> v@.len() == nb_recipients,
            r matches Ok(v) ==> ({
                let d = decrypt_entries(
                    self.key_view().unwrap(),
                    amount@,
                    pub_keys@,
                    enc_recipients@,
                    senders@,
                    signatures@,
                    nb_recipients as nat,
                );
                d matches Ok(ds) && views_of(v@).to_multiset() == ds.to_multiset()
            }),
    {
        let key = match &self.key {
            Some(k) => k,
            None => {
                return Err(MixError::UninitializedState);
            },
        };
        let ghost kv = key@;
        if !validate_batch(nb_recipients, pub_keys, enc_recipients, senders, signatures) {
            return Err(MixError::MalformedBatch);
        }
        let mut recipients: Vec<Vec<u8>> = Vec::new();
        proof {
            assert(pub_keys.len() == pub_keys@.len());
            assert(enc_recipients.len() == enc_recipients@.len());
            assert(senders.len() == senders@.len());
            assert(signatures.len() == signatures@.len());
            assert(views_of(recipients@) =~= Seq::<Seq<u8>>::empty());
        }
        let mut i: usize = 0;
        while i < nb_recipients
            invariant
                i <= nb_recipients,
                key@ == kv,
                self.key_view() == Some(kv),
                kv.len() == 32,
                batch_wf(nb_recipients as nat, pub_keys@, enc_recipients@, senders@, signatures@),
                pub_keys@.len() <= usize::MAX,
                enc_recipients@.len() <= usize::MAX,
                senders@.len() <= usize::MAX,
                signatures@.len() <= usize::MAX,
                recipients@.len() == i,
                decrypt_entries(
                    kv,
                    amount@,
                    pub_keys@,
                    enc_recipients@,
                    senders@,
                    signatures@,
                    i as nat,
                ) == Result::<Seq<Seq<u8>>, MixError>::Ok(views_of(recipients@)),
            decreases nb_recipients - i,
        {
            let user_pubkey = slice_range(pub_keys, i * PUB_KEY_SIZE, PUB_KEY_SIZE);
            let enc_recipient = slice_range(enc_recipients, i * ENC_RECIPIENT_SIZE, ENC_RECIPIENT_SIZE);
            let sender = slice_range(senders, i * SENDER_SIZE, SENDER_SIZE);
            let signature = slice_range(signatures, i * SIG_SIZE, SIG_SIZE);
            proof {
                assert(user_pubkey@ == entry_at(pub_keys@, i as int, PUB_KEY_SIZE as int));
                assert(enc_recipient@ == entry_at(
                    enc_recipients@,
                    i as int,
                    ENC_RECIPIENT_SIZE as int,
                ));
                assert(sender@ == entry_at(senders@, i as int, SENDER_SIZE as int));
                assert(signature@ == entry_at(signatures@, i as int, SIG_SIZE as int));
            }
            let outcome = Self::process_entry(key, amount, &user_pubkey, &enc_recipient, &sender, &signature);
            let recipient = match outcome {
                Ok(a) => a,
                Err(e) => {
                    proof {
                        assert(batch_entry_outcome(
                            kv,
                            amount@,
                            pub_keys@,
                            enc_recipients@,
                            senders@,
                            signatures@,
                            i as int,
                        ) == Result::<Seq<u8>, MixError>::Err(e));
                        assert(decrypt_entries(
                            kv,
                            amount@,
                            pub_keys@,
                            enc_recipients@,
                            senders@,
                            signatures@,
                            i as nat + 1,
                        ) == Result::<Seq<Seq<u8>>, MixError>::Err(e));
                        lemma_decrypt_entries_stops(
                            kv,
                            amount@,
                            pub_keys@,
                            enc_recipients@,
                            senders@,
                            signatures@,
                            i as nat + 1,
                            nb_recipients as nat,
                        );
                        assert(self.key_view() == Some(kv));
                        assert(deal_outcome(
                            self.key_view(),
                            nb_recipients as nat,
                            amount@,
                            pub_keys@,
                            enc_recipients@,
                            senders@,
                            signatures@,
                            seed,
                        ) == Result::<Seq<Seq<u8>>, MixError>::Err(e));
                    }
                    return Err(e);
                },
            };
            let ghost prev = recipients@;
            recipients.push(recipient);
            proof {
                assert(views_of(recipients@) =~= views_of(prev).push(recipient@));
                assert(decrypt_entries(
                    kv,
                    amount@,
                    pub_keys@,
                    enc_recipients@,
                    senders@,
                    signatures@,
                    (i + 1) as nat,
                ) == Result::<Seq<Seq<u8>>, MixError>::Ok(views_of(prev).push(recipient@)));
            }
            i = i + 1;
        }
        let ghost pre = recipients@;
        shuffle(&mut recipients, seed);
        proof {
            lemma_shuffle_views_commute(pre, seed);
            lemma_shuffle_permutes(views_of(pre), seed);
        }
        Ok(recipients)
    }

    /// Processes one already-sliced entry of a batch: shared secret,
    /// decryption, signature check, in that order.
    fn process_entry(
        key: &Vec<u8>,
        amount: &Vec<u8>,
        user_pubkey: &Vec<u8>,
        enc_recipient: &Vec<u8>,
        sender: &Vec<u8>,
        signature: &Vec<u8>,
    ) -> (r: Result<Vec<u8>, MixError>)
        requires
            key@.len() == 32,
            enc_recipient@.len() == ENC_RECIPIENT_SIZE,
            signature@.len() == SIG_SIZE,
        ensures
            match r {
                Ok(a) => entry_outcome(key@, amount@, user_pubkey@, enc_recipient@, sender@, signature@)
                    == Result::<Seq<u8>, MixError>::Ok(a@),
                Err(e) => entry_outcome(
                    key@,
                    amount@,
                    user_pubkey@,
                    enc_recipient@,
                    sender@,
                    signature@,
                ) == Result::<Seq<u8>, MixError>::Err(e),
            },
    {
        let shared = match derive_shared_secret(key, user_pubkey) {
            Ok(s) => s,
            Err(e) => {
                return Err(e);
            },
        };
        let recipient = match decrypt_recipient(enc_recipient, &shared) {
            Ok(a) => a,
            Err(e) => {
                return Err(e);
            },
        };
        let signer = match verify_signature(signature, sender, amount, enc_recipient, user_pubkey) {
            Ok(a) => a,
            Err(e) => {
                return Err(e);
            },
        };
        if !bytes_eq(&signer, sender) {
            return Err(MixError::SignatureInvalid);
        }
        Ok(recipient)
    }
}

} // verus!
