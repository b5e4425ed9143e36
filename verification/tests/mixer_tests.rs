//! End-to-end tests of the mixing pipeline with real cryptography.

use coinjoin::codec::canonical_message_bytes;
use coinjoin::decryptor::{decrypt_recipient, encrypt_recipient};
use coinjoin::errors::MixError;
use coinjoin::keys::derive_shared_secret;
use coinjoin::mixer::Contract;
use coinjoin::shuffle::shuffle;
use coinjoin::sigverify::{sign_entry, verify_signature};

fn keccak(data: &[u8]) -> Vec<u8> {
    <sha3::Keccak256 as sha3::Digest>::digest(data).as_slice().to_vec()
}

fn address_of_pubkey(pk: &[u8]) -> Vec<u8> {
    keccak(pk)[12..32].to_vec()
}

fn pubkey_of_secret(seckey: &[u8]) -> Vec<u8> {
    let sk = libsecp256k1::SecretKey::parse_slice(seckey).unwrap();
    let pk = libsecp256k1::PublicKey::from_secret_key(&sk);
    pk.serialize()[1..].to_vec()
}

fn constructed_mixer(key_byte: u8) -> Contract {
    let mut m = Contract::new();
    m.construct(&vec![0xabu8; 20], vec![key_byte; 32]);
    m
}

/// One sender's contribution to a batch: the packed columns for one entry.
struct Entry {
    user_pubkey: Vec<u8>,
    enc_recipient: Vec<u8>,
    sender: Vec<u8>,
    signature: Vec<u8>,
}

fn make_entry(mixer_pubkey: &Vec<u8>, sender_seckey_byte: u8, recipient: &Vec<u8>, amount: &Vec<u8>) -> Entry {
    let sender_seckey = vec![sender_seckey_byte; 32];
    let user_pubkey = pubkey_of_secret(&sender_seckey);
    let sender = address_of_pubkey(&user_pubkey);
    let shared = derive_shared_secret(&sender_seckey, mixer_pubkey).unwrap();
    let padding = vec![0u8; 22];
    let iv = vec![7u8; 12];
    let enc_recipient = encrypt_recipient(recipient, &padding, &shared, &iv);
    let signature = sign_entry(&sender_seckey, &sender, amount, &enc_recipient, &user_pubkey).unwrap();
    Entry { user_pubkey, enc_recipient, sender, signature }
}

fn pack(entries: &[Entry]) -> (Vec<u8>, Vec<u8>, Vec<u8>, Vec<u8>) {
    let mut pub_keys = Vec::new();
    let mut enc_recipients = Vec::new();
    let mut senders = Vec::new();
    let mut signatures = Vec::new();
    for e in entries {
        pub_keys.extend_from_slice(&e.user_pubkey);
        enc_recipients.extend_from_slice(&e.enc_recipient);
        senders.extend_from_slice(&e.sender);
        signatures.extend_from_slice(&e.signature);
    }
    (pub_keys, enc_recipients, senders, signatures)
}

#[test]
fn uninitialized_state_is_rejected() {
    let m = Contract::new();
    assert_eq!(m.get_pub_key(), Err(MixError::UninitializedState));
    let r = m.execute_deal(
        &vec![0u8; 32],
        0,
        &vec![0u8; 32],
        &Vec::new(),
        &Vec::new(),
        &Vec::new(),
        &Vec::new(),
        10,
    );
    assert_eq!(r, Err(MixError::UninitializedState));
}

#[test]
fn get_pub_key_matches_secret_key() {
    let m = constructed_mixer(1);
    let pk = m.get_pub_key().unwrap();
    assert_eq!(pk, pubkey_of_secret(&vec![1u8; 32]));
    assert_eq!(pk.len(), 64);
}

#[test]
fn malformed_secret_key_fails_key_derivation() {
    let m = constructed_mixer(0);
    assert_eq!(m.get_pub_key(), Err(MixError::KeyDerivationFailed));
}

#[test]
fn mixer_eth_addr_is_hex_encoded() {
    let m = constructed_mixer(1);
    assert_eq!(
        m.get_mixer_eth_addr(),
        "abababababababababababababababababababab".to_string()
    );
    let fresh = Contract::new();
    assert_eq!(fresh.get_mixer_eth_addr(), String::new());
}

#[test]
fn shared_secret_is_symmetric() {
    let a_sec = vec![1u8; 32];
    let b_sec = vec![2u8; 32];
    let a_pub = pubkey_of_secret(&a_sec);
    let b_pub = pubkey_of_secret(&b_sec);
    let ab = derive_shared_secret(&a_sec, &b_pub).unwrap();
    let ba = derive_shared_secret(&b_sec, &a_pub).unwrap();
    assert_eq!(ab, ba);
    assert_eq!(ab.len(), 32);
}

#[test]
fn shared_secret_rejects_invalid_point() {
    let r = derive_shared_secret(&vec![1u8; 32], &vec![0u8; 64]);
    assert_eq!(r, Err(MixError::KeyDerivationFailed));
}

#[test]
fn encrypt_then_decrypt_returns_the_address() {
    let shared = vec![9u8; 32];
    let recipient = vec![0x42u8; 20];
    let padding = vec![0u8; 22];
    let iv = vec![3u8; 12];
    let enc = encrypt_recipient(&recipient, &padding, &shared, &iv);
    assert_eq!(enc.len(), 70);
    assert_eq!(decrypt_recipient(&enc, &shared), Ok(recipient));
}

#[test]
fn tampered_ciphertext_fails_decryption() {
    let shared = vec![9u8; 32];
    let recipient = vec![0x42u8; 20];
    let enc = encrypt_recipient(&recipient, &vec![0u8; 22], &shared, &vec![3u8; 12]);
    for bit in 0..8 {
        let mut bad = enc.clone();
        bad[0] ^= 1 << bit;
        assert_eq!(decrypt_recipient(&bad, &shared), Err(MixError::DecryptionFailed));
    }
    let mut bad_tag = enc.clone();
    bad_tag[57] ^= 0x80;
    assert_eq!(decrypt_recipient(&bad_tag, &shared), Err(MixError::DecryptionFailed));
}

#[test]
fn wrong_shared_secret_fails_decryption() {
    let recipient = vec![0x42u8; 20];
    let enc = encrypt_recipient(&recipient, &vec![0u8; 22], &vec![9u8; 32], &vec![3u8; 12]);
    assert_eq!(decrypt_recipient(&enc, &vec![8u8; 32]), Err(MixError::DecryptionFailed));
}

#[test]
fn canonical_message_has_the_fixed_framing() {
    let sender = vec![0x11u8; 20];
    let amount = vec![0x22u8; 32];
    let enc_recipient = vec![0x33u8; 70];
    let user_pubkey = vec![0x44u8; 64];
    let m = canonical_message_bytes(&sender, &amount, &enc_recipient, &user_pubkey);
    let mut expected: Vec<u8> = Vec::new();
    expected.extend_from_slice(&[0, 0, 0, 0, 0, 0, 0, 20]);
    expected.extend_from_slice(&sender);
    expected.extend_from_slice(&[0, 0, 0, 0, 0, 0, 0, 32]);
    expected.extend_from_slice(&amount);
    expected.extend_from_slice(&[0, 0, 0, 0, 0, 0, 0, 70]);
    expected.extend_from_slice(&enc_recipient);
    expected.extend_from_slice(&[0, 0, 0, 0, 0, 0, 0, 64]);
    expected.extend_from_slice(&user_pubkey);
    assert_eq!(m, expected);
}

#[test]
fn sign_then_recover_yields_the_signer_address() {
    let seckey = vec![5u8; 32];
    let user_pubkey = pubkey_of_secret(&seckey);
    let sender = address_of_pubkey(&user_pubkey);
    let amount = vec![0u8; 32];
    let enc_recipient = vec![0x33u8; 70];
    let sig = sign_entry(&seckey, &sender, &amount, &enc_recipient, &user_pubkey).unwrap();
    assert_eq!(sig.len(), 65);
    let recovered = verify_signature(&sig, &sender, &amount, &enc_recipient, &user_pubkey).unwrap();
    assert_eq!(recovered, sender);
}

#[test]
fn tampered_signature_never_recovers_the_sender() {
    let seckey = vec![5u8; 32];
    let user_pubkey = pubkey_of_secret(&seckey);
    let sender = address_of_pubkey(&user_pubkey);
    let amount = vec![0u8; 32];
    let enc_recipient = vec![0x33u8; 70];
    let sig = sign_entry(&seckey, &sender, &amount, &enc_recipient, &user_pubkey).unwrap();
    for byte in [0usize, 31, 63, 64] {
        for bit in 0..8 {
            let mut bad = sig.clone();
            bad[byte] ^= 1 << bit;
            if bad == sig {
                continue;
            }
            match verify_signature(&bad, &sender, &amount, &enc_recipient, &user_pubkey) {
                Ok(addr) => assert_ne!(addr, sender),
                Err(e) => assert_eq!(e, MixError::SignatureInvalid),
            }
        }
    }
}

#[test]
fn tampered_sender_never_matches_the_recovered_signer() {
    let seckey = vec![5u8; 32];
    let user_pubkey = pubkey_of_secret(&seckey);
    let sender = address_of_pubkey(&user_pubkey);
    let amount = vec![0u8; 32];
    let enc_recipient = vec![0x33u8; 70];
    let sig = sign_entry(&seckey, &sender, &amount, &enc_recipient, &user_pubkey).unwrap();
    for bit in 0..8 {
        let mut bad_sender = sender.clone();
        bad_sender[0] ^= 1 << bit;
        match verify_signature(&sig, &bad_sender, &amount, &enc_recipient, &user_pubkey) {
            Ok(addr) => assert_ne!(addr, bad_sender),
            Err(e) => assert_eq!(e, MixError::SignatureInvalid),
        }
    }
}

#[test]
fn shuffle_with_known_seed_is_reproducible() {
    let mut v: Vec<Vec<u8>> = vec![vec![0u8; 20], vec![1u8; 20], vec![2u8; 20]];
    shuffle(&mut v, 10);
    assert_eq!(v, vec![vec![2u8; 20], vec![0u8; 20], vec![1u8; 20]]);
}

#[test]
fn empty_deal_returns_the_empty_list() {
    let m = constructed_mixer(1);
    let r = m.execute_deal(
        &vec![0u8; 32],
        0,
        &vec![0u8; 32],
        &Vec::new(),
        &Vec::new(),
        &Vec::new(),
        &Vec::new(),
        10,
    );
    assert_eq!(r, Ok(Vec::new()));
}

#[test]
fn mismatched_array_lengths_are_rejected() {
    let m = constructed_mixer(1);
    let amount = vec![0u8; 32];
    let deal_id = vec![0u8; 32];
    let r = m.execute_deal(
        &deal_id,
        1,
        &amount,
        &vec![0u8; 64],
        &vec![0u8; 69],
        &vec![0u8; 20],
        &vec![0u8; 65],
        10,
    );
    assert_eq!(r, Err(MixError::MalformedBatch));
    let r2 = m.execute_deal(
        &deal_id,
        2,
        &amount,
        &vec![0u8; 64],
        &vec![0u8; 140],
        &vec![0u8; 40],
        &vec![0u8; 130],
        10,
    );
    assert_eq!(r2, Err(MixError::MalformedBatch));
}

#[test]
fn deal_of_three_recipients_returns_the_seeded_permutation() {
    let m = constructed_mixer(1);
    let mixer_pub = m.get_pub_key().unwrap();
    let amount = vec![0u8; 32];
    let recipients: Vec<Vec<u8>> = vec![vec![0xa0u8; 20], vec![0xa1u8; 20], vec![0xa2u8; 20]];
    let entries: Vec<Entry> = vec![
        make_entry(&mixer_pub, 3, &recipients[0], &amount),
        make_entry(&mixer_pub, 4, &recipients[1], &amount),
        make_entry(&mixer_pub, 5, &recipients[2], &amount),
    ];
    let (pub_keys, enc_recipients, senders, signatures) = pack(&entries);
    let out = m
        .execute_deal(
            &vec![0u8; 32],
            3,
            &amount,
            &pub_keys,
            &enc_recipients,
            &senders,
            &signatures,
            10,
        )
        .unwrap();
    assert_eq!(out.len(), 3);
    assert_eq!(
        out,
        vec![recipients[2].clone(), recipients[0].clone(), recipients[1].clone()]
    );
}

#[test]
fn deal_with_tampered_ciphertext_fails_closed() {
    let m = constructed_mixer(1);
    let mixer_pub = m.get_pub_key().unwrap();
    let amount = vec![0u8; 32];
    let entries = vec![make_entry(&mixer_pub, 3, &vec![0xa0u8; 20], &amount)];
    let (pub_keys, mut enc_recipients, senders, signatures) = pack(&entries);
    enc_recipients[5] ^= 1;
    let r = m.execute_deal(
        &vec![0u8; 32],
        1,
        &amount,
        &pub_keys,
        &enc_recipients,
        &senders,
        &signatures,
        10,
    );
    assert_eq!(r, Err(MixError::DecryptionFailed));
}

#[test]
fn deal_with_spoofed_sender_fails_closed() {
    let m = constructed_mixer(1);
    let mixer_pub = m.get_pub_key().unwrap();
    let amount = vec![0u8; 32];
    let entries = vec![make_entry(&mixer_pub, 3, &vec![0xa0u8; 20], &amount)];
    let (pub_keys, enc_recipients, mut senders, signatures) = pack(&entries);
    senders[0] ^= 1;
    let r = m.execute_deal(
        &vec![0u8; 32],
        1,
        &amount,
        &pub_keys,
        &enc_recipients,
        &senders,
        &signatures,
        10,
    );
    assert_eq!(r, Err(MixError::SignatureInvalid));
}

#[test]
fn deal_with_invalid_counterparty_key_fails_closed() {
    let m = constructed_mixer(1);
    let mixer_pub = m.get_pub_key().unwrap();
    let amount = vec![0u8; 32];
    let entries = vec![make_entry(&mixer_pub, 3, &vec![0xa0u8; 20], &amount)];
    let (mut pub_keys, enc_recipients, senders, signatures) = pack(&entries);
    for b in pub_keys.iter_mut() {
        *b = 0;
    }
    let r = m.execute_deal(
        &vec![0u8; 32],
        1,
        &amount,
        &pub_keys,
        &enc_recipients,
        &senders,
        &signatures,
        10,
    );
    assert_eq!(r, Err(MixError::KeyDerivationFailed));
}

#[test]
fn deal_preserves_the_multiset_of_recipients() {
    let m = constructed_mixer(1);
    let mixer_pub = m.get_pub_key().unwrap();
    let amount = vec![0u8; 32];
    let recipients: Vec<Vec<u8>> = vec![vec![0xb0u8; 20], vec![0xb1u8; 20], vec![0xb2u8; 20]];
    let entries: Vec<Entry> = vec![
        make_entry(&mixer_pub, 3, &recipients[0], &amount),
        make_entry(&mixer_pub, 4, &recipients[1], &amount),
        make_entry(&mixer_pub, 5, &recipients[2], &amount),
    ];
    let (pub_keys, enc_recipients, senders, signatures) = pack(&entries);
    for seed in [0u64, 1, 2, 10, 12345678901234567890] {
        let out = m
            .execute_deal(
                &vec![0u8; 32],
                3,
                &amount,
                &pub_keys,
                &enc_recipients,
                &senders,
                &signatures,
                seed,
            )
            .unwrap();
        assert_eq!(out.len(), 3);
        let mut sorted = out.clone();
        sorted.sort();
        let mut expected = recipients.clone();
        expected.sort();
        assert_eq!(sorted, expected);
    }
}
