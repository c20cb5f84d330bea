//! 1-out-of-2 oblivious transfer in the Even-Goldreich-Lempel style.
//!
//! A sender holds two messages; a receiver holds a choice bit. The receiver
//! offers two public keys, of which it can decrypt under exactly one: the
//! other is a decoy whose private half is discarded at generation. The sender
//! encrypts each message under the key in the matching slot, and the receiver
//! decrypts only the slot of its choice. The receiver thus learns the chosen
//! message and is structurally unable to read the other; the sender sees two
//! well-formed keys and cannot tell which one is real.

mod choice;
mod crypto;
mod error;
mod protocol;
mod xor;

pub use choice::Choice;
pub use crypto::key_size_bytes;
pub use crypto::Ciphertext;
pub use crypto::PrivateKey;
pub use crypto::PublicKey;
pub use crypto::MAX_MODULUS_BYTES;
pub use crypto::PKCS1V15_OVERHEAD_BYTES;
pub use error::OTError;
pub use protocol::chosen_message;
pub use protocol::lemma_decoy_not_retained;
pub use protocol::lemma_encrypt_acceptance_choice_independent;
pub use protocol::lemma_offer_ids_independent_of_choice;
pub use protocol::lemma_other_message_not_disclosed;
pub use protocol::lemma_protocol_correctness;
pub use protocol::other_message;
pub use protocol::OTReceiver;
pub use protocol::OTSender;
pub use protocol::ReceiverPublicKeys;
pub use protocol::SenderResponse;
pub use protocol::DEFAULT_MODULUS_BITS;
pub use xor::byte_or_zero;
pub use xor::spec_xor;
pub use xor::xor;
