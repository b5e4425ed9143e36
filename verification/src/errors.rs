use vstd::prelude::*;

verus! {

/// The ways a mixing operation can fail.  Every failure aborts the whole
/// invocation: no partial recipient list is ever returned.
#[derive(Clone, Copy, Debug, PartialEq, Eq, Structural)]
pub enum MixError {
    /// A state read happened before construction stored the key material.
    UninitializedState,
    /// A packed array's length does not match the entry count times the
    /// entry width.
    MalformedBatch,
    /// A signature is unrecoverable, or the recovered signer differs from
    /// the claimed sender.
    SignatureInvalid,
    /// Authenticated decryption of an encrypted recipient failed, or the
    /// plaintext is too short to hold an address.
    DecryptionFailed,
    /// The secret key is malformed, or a counterparty public key is not a
    /// valid curve point.
    KeyDerivationFailed,
}

} // verus!
