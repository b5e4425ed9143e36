//! Confidential settlement core of a coin-mixing protocol.
//!
//! A batch of encrypted recipient instructions is authenticated against the
//! claimed senders by signature recovery, decrypted with per-sender shared
//! secrets, and the resulting address list is permuted so that payout order
//! carries no relation to submission order.

pub mod codec;
pub mod crypto;
pub mod decryptor;
pub mod errors;
pub mod keys;
pub mod mixer;
pub mod shuffle;
pub mod sigverify;
