use vstd::prelude::*;

verus! {

/// The failures of the protocol. Every failure aborts the session: no
/// operation retries, and no partial state is handed to the caller.
#[derive(Clone, Copy, Debug, PartialEq, Eq, Structural)]
pub enum OTError {
    /// A choice bit outside `{0, 1}` was offered at construction.
    InvalidChoice,
    /// The key generator could not produce a key pair.
    KeyGenerationFailed,
    /// Encryption of the message for the named slot failed, for instance
    /// because the message does not fit the modulus.
    EncryptionFailed(u8),
    /// An operation was invoked out of its phase order, such as decrypting
    /// before the keys exist or arranging keys twice.
    ProtocolStateError,
    /// The chosen ciphertext could not be decrypted.
    DecryptionFailed,
}

} // verus!
