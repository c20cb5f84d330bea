use crate::choice::Choice;
use crate::crypto::generate_session_keys;
use crate::crypto::key_size_bytes;
use crate::crypto::rsa_decrypt;
use crate::crypto::rsa_encrypt;
use crate::crypto::Ciphertext;
use crate::crypto::PrivateKey;
use crate::crypto::PublicKey;
use crate::error::OTError;
use vstd::prelude::*;

verus! {

/// The modulus size the receiver uses when none is asked for. It is a
/// reference size, not a security target: the protocol is unaffected by the
/// choice, and a deployment should pick its own.
pub const DEFAULT_MODULUS_BITS: usize = 1024;

/// The receiver's offer: an ordered pair of public keys, exactly one of
/// which the receiver can decrypt under. Both slots are well-formed keys of
/// the same size, so the sender cannot tell the real one from the decoy.
pub struct ReceiverPublicKeys {
    pub pk0: PublicKey,
    pub pk1: PublicKey,
}

impl ReceiverPublicKeys {
    /// The key in the slot a choice points at.
    pub open spec fn chosen(self, c: Choice) -> PublicKey {
        if c is One {
            self.pk1
        } else {
            self.pk0
        }
    }

    /// The key in the slot a choice does not point at.
    pub open spec fn other(self, c: Choice) -> PublicKey {
        if c is One {
            self.pk0
        } else {
            self.pk1
        }
    }

    /// Both slots hold keys of one and the same modulus size, the size that
    /// generation at `bits` bits produces: by its shape the offer shows two
    /// equal-sized, well-formed keys and nothing more.
    pub open spec fn uniform_size_for(self, bits: usize) -> bool {
        &&& self.pk0.spec_modulus_bytes() as int == key_size_bytes(bits)
        &&& self.pk1.spec_modulus_bytes() as int == key_size_bytes(bits)
    }
}

/// The sender's answer: an ordered pair of ciphertexts, slot for slot the
/// sender's two messages encrypted under the offer's two keys.
pub struct SenderResponse {
    pub encrypted_m0: Ciphertext,
    pub encrypted_m1: Ciphertext,
}

impl SenderResponse {
    /// The ciphertext in the slot a choice points at.
    pub open spec fn chosen(self, c: Choice) -> Ciphertext {
        if c is One {
            self.encrypted_m1
        } else {
            self.encrypted_m0
        }
    }

    /// The ciphertext in the slot a choice does not point at.
    pub open spec fn other(self, c: Choice) -> Ciphertext {
        if c is One {
            self.encrypted_m0
        } else {
            self.encrypted_m1
        }
    }

    /// This response answers the offer `keys` for the messages `(m0, m1)`:
    /// slot `i` was encrypted under the offer's slot-`i` key and carries
    /// message `i`. The relation holds slot-wise, whichever slot holds the
    /// receiver's real key.
    pub open spec fn encrypts(self, keys: ReceiverPublicKeys, m0: Seq<u8>, m1: Seq<u8>) -> bool {
        &&& self.encrypted_m0.key_id() == keys.pk0.id()
        &&& self.encrypted_m0.plaintext() == m0
        &&& self.encrypted_m1.key_id() == keys.pk1.id()
        &&& self.encrypted_m1.plaintext() == m1
    }
}

/// The message of the pair that a choice selects.
pub open spec fn chosen_message(c: Choice, m0: Seq<u8>, m1: Seq<u8>) -> Seq<u8> {
    if c is One {
        m1
    } else {
        m0
    }
}

/// The message of the pair that a choice does not select.
pub open spec fn other_message(c: Choice, m0: Seq<u8>, m1: Seq<u8>) -> Seq<u8> {
    if c is One {
        m0
    } else {
        m1
    }
}

/// The sender's side of one session: two messages, fixed at construction,
/// read once during encryption.
pub struct OTSender {
    message0: Vec<u8>,
    message1: Vec<u8>,
}

impl OTSender {
    /// The first of the two messages on offer.
    pub closed spec fn spec_message0(self) -> Seq<u8> {
        self.message0@
    }

    /// The second of the two messages on offer.
    pub closed spec fn spec_message1(self) -> Seq<u8> {
        self.message1@
    }

    /// A sender holding the two messages `message0` and `message1`.
    pub fn new(message0: Vec<u8>, message1: Vec<u8>) -> (r: Result<OTSender, OTError>)
        ensures
            r matches Ok(s) && s.spec_message0() == message0@ && s.spec_message1() == message1@,
    {
        Ok(OTSender { message0, message1 })
    }

    /// Encrypts message 0 under the offer's slot-0 key and message 1 under
    /// its slot-1 key, each with fresh randomness. The two slots are treated
    /// identically: nothing here reads, or could read, which key is real, so
    /// whether the call succeeds depends only on the message lengths and the
    /// keys' sizes, never on the choice. Success is owed exactly when each
    /// message fits the capacity of its slot's key; otherwise the first slot
    /// whose message does not fit is reported as `OTError::EncryptionFailed`
    /// of that slot, before any partial answer exists.
    pub fn encrypt_messages(&self, receiver_pks: ReceiverPublicKeys) -> (r: Result<
        SenderResponse,
        OTError,
    >)
        ensures
            r is Ok <==> receiver_pks.pk0.spec_accepts(self.spec_message0())
                && receiver_pks.pk1.spec_accepts(self.spec_message1()),
            r == Err::<SenderResponse, OTError>(OTError::EncryptionFailed(0))
                <==> !receiver_pks.pk0.spec_accepts(self.spec_message0()),
            r == Err::<SenderResponse, OTError>(OTError::EncryptionFailed(1))
                <==> receiver_pks.pk0.spec_accepts(self.spec_message0())
                && !receiver_pks.pk1.spec_accepts(self.spec_message1()),
            r matches Ok(resp) ==> resp.encrypts(
                receiver_pks,
                self.spec_message0(),
                self.spec_message1(),
            ),
    {
        if !receiver_pks.pk0.accepts(self.message0.as_slice()) {
            return Err(OTError::EncryptionFailed(0));
        }
        if !receiver_pks.pk1.accepts(self.message1.as_slice()) {
            return Err(OTError::EncryptionFailed(1));
        }
        let encrypted_m0 = match rsa_encrypt(&receiver_pks.pk0, self.message0.as_slice()) {
            Ok(ct) => ct,
            Err(_) => unreached(),
        };
        let encrypted_m1 = match rsa_encrypt(&receiver_pks.pk1, self.message1.as_slice()) {
            Ok(ct) => ct,
            Err(_) => unreached(),
        };
        Ok(SenderResponse { encrypted_m0, encrypted_m1 })
    }
}

/// The receiver's side of one session. Its whole state is the choice, the
/// asked-for modulus size, and at most one private key: the structure has no
/// place where a second (decoy) private key could live.
pub struct OTReceiver {
    choice: Choice,
    modulus_bits: usize,
    private_key: Option<PrivateKey>,
}

impl OTReceiver {
    /// The choice this receiver was created with.
    pub closed spec fn spec_choice(self) -> Choice {
        self.choice
    }

    /// The modulus size this receiver generates keys at.
    pub closed spec fn spec_modulus_bits(self) -> usize {
        self.modulus_bits
    }

    /// Whether the key-arrangement step has run: only then does the receiver
    /// hold a private key.
    pub open spec fn keys_generated(self) -> bool {
        self.spec_private_key() is Some
    }

    /// The one private key the receiver retains, if any.
    pub closed spec fn spec_private_key(self) -> Option<PrivateKey> {
        self.private_key
    }

    /// The generation event of the retained private key.
    pub open spec fn retained_key_id(self) -> int {
        self.spec_private_key().unwrap().id()
    }

    /// The offer `keys` is the one this receiver's key-arrangement step
    /// produced: the chosen slot holds the public half of the retained key,
    /// and the other slot holds a key from a different generation event,
    /// whose private half no longer exists.
    pub open spec fn offered(self, keys: ReceiverPublicKeys) -> bool {
        &&& self.keys_generated()
        &&& keys.chosen(self.spec_choice()).id() == self.retained_key_id()
        &&& keys.other(self.spec_choice()).id() != self.retained_key_id()
    }

    /// A fresh receiver for one session, holding only its choice; keys are
    /// generated at the reference modulus size.
    pub fn new(choice: Choice) -> (r: OTReceiver)
        ensures
            r.spec_choice() == choice,
            r.spec_modulus_bits() == DEFAULT_MODULUS_BITS,
            !r.keys_generated(),
    {
        OTReceiver { choice, modulus_bits: DEFAULT_MODULUS_BITS, private_key: None }
    }

    /// A fresh receiver whose keys will be generated at `modulus_bits` bits.
    pub fn with_modulus_bits(choice: Choice, modulus_bits: usize) -> (r: OTReceiver)
        ensures
            r.spec_choice() == choice,
            r.spec_modulus_bits() == modulus_bits,
            !r.keys_generated(),
    {
        OTReceiver { choice, modulus_bits, private_key: None }
    }

    /// The key-arrangement step. Generates the real key pair and a decoy
    /// pair, discards the decoy's private half inside the generation step,
    /// stores the real private key, and returns the offer with the real
    /// public key in the chosen slot and the decoy in the other.
    ///
    /// Runs once per session: a second call is `OTError::ProtocolStateError`
    /// and changes nothing, so an offer can never be silently invalidated by
    /// regeneration. A failure of the key generator aborts the session with
    /// `OTError::KeyGenerationFailed` and leaves no partial state behind.
    pub fn generate_public_keys(&mut self) -> (r: Result<ReceiverPublicKeys, OTError>)
        ensures
            final(self).spec_choice() == old(self).spec_choice(),
            final(self).spec_modulus_bits() == old(self).spec_modulus_bits(),
            r matches Ok(keys) ==> final(self).offered(keys) && keys.uniform_size_for(
                old(self).spec_modulus_bits(),
            ),
            r == Err::<ReceiverPublicKeys, OTError>(OTError::ProtocolStateError) <==> old(
                self,
            ).keys_generated(),
            r matches Err(e) ==> e == OTError::ProtocolStateError || e
                == OTError::KeyGenerationFailed,
            r is Err ==> *final(self) == *old(self),
    {
        if self.private_key.is_some() {
            return Err(OTError::ProtocolStateError);
        }
        match generate_session_keys(self.modulus_bits) {
            Ok((retained, genuine_public, decoy_public)) => {
                let keys = match self.choice {
                    Choice::Zero => ReceiverPublicKeys {
                        pk0: genuine_public,
                        pk1: decoy_public,
                    },
                    Choice::One => ReceiverPublicKeys { pk0: decoy_public, pk1: genuine_public },
                };
                self.private_key = Some(retained);
                Ok(keys)
            },
            Err(_) => Err(OTError::KeyGenerationFailed),
        }
    }

    /// The decrypt step. Selects the ciphertext slot matching the choice and
    /// decrypts it with the retained private key; the other slot is never
    /// touched. Called before key generation it is a contract violation,
    /// reported as `OTError::ProtocolStateError` and never a plaintext; a
    /// malformed or foreign ciphertext in the chosen slot is
    /// `OTError::DecryptionFailed`. When the chosen slot was encrypted under
    /// the retained key's public half, the plaintext it carries is returned.
    pub fn decrypt_message(&self, response: SenderResponse) -> (r: Result<Vec<u8>, OTError>)
        ensures
            r == Err::<Vec<u8>, OTError>(OTError::ProtocolStateError) <==> !self.keys_generated(),
            r matches Ok(p) ==> self.keys_generated() && (response.chosen(self.spec_choice()).key_id()
                == self.retained_key_id() ==> p@ == response.chosen(self.spec_choice()).plaintext()),
            self.keys_generated() && response.chosen(self.spec_choice()).key_id()
                == self.retained_key_id() ==> r is Ok,
            r matches Err(e) ==> e == OTError::ProtocolStateError || e == OTError::DecryptionFailed,
    {
        let retained = match &self.private_key {
            Some(k) => k,
            None => {
                return Err(OTError::ProtocolStateError);
            },
        };
        let ciphertext = match self.choice {
            Choice::Zero => &response.encrypted_m0,
            Choice::One => &response.encrypted_m1,
        };
        match rsa_decrypt(retained, ciphertext) {
            Ok(plaintext) => Ok(plaintext),
            Err(_) => Err(OTError::DecryptionFailed),
        }
    }
}

/// Law (correctness): when the offer came from the receiver's own
/// key-arrangement step and the response answers that offer for the messages
/// `(m0, m1)`, the slot the receiver decrypts was made under the retained
/// key and carries exactly the chosen message. Together with the contract of
/// `decrypt_message`, a full run of the protocol returns the chosen message.
pub proof fn lemma_protocol_correctness(
    receiver: OTReceiver,
    keys: ReceiverPublicKeys,
    response: SenderResponse,
    m0: Seq<u8>,
    m1: Seq<u8>,
)
    requires
        receiver.offered(keys),
        response.encrypts(keys, m0, m1),
    ensures
        response.chosen(receiver.spec_choice()).key_id() == receiver.retained_key_id(),
        response.chosen(receiver.spec_choice()).plaintext() == chosen_message(
            receiver.spec_choice(),
            m0,
            m1,
        ),
{
}

/// Law (receiver secrecy of the other message): in the same setting, when
/// the two messages differ, the slot the receiver decrypts never carries the
/// non-chosen message, and the retained key does not match the key the other
/// slot was encrypted under.
pub proof fn lemma_other_message_not_disclosed(
    receiver: OTReceiver,
    keys: ReceiverPublicKeys,
    response: SenderResponse,
    m0: Seq<u8>,
    m1: Seq<u8>,
)
    requires
        receiver.offered(keys),
        response.encrypts(keys, m0, m1),
        m0 != m1,
    ensures
        response.chosen(receiver.spec_choice()).plaintext() != other_message(
            receiver.spec_choice(),
            m0,
            m1,
        ),
        response.other(receiver.spec_choice()).key_id() != receiver.retained_key_id(),
{
}

/// Law (decoy non-retention): after the key-arrangement step the receiver's
/// state holds exactly one private key, the real one; the decoy slot of the
/// offer belongs to a different generation event, so no key reachable from
/// the receiver matches it.
pub proof fn lemma_decoy_not_retained(receiver: OTReceiver, keys: ReceiverPublicKeys)
    requires
        receiver.offered(keys),
    ensures
        keys.other(receiver.spec_choice()).id() != receiver.retained_key_id(),
        forall|k: PrivateKey|
            receiver.spec_private_key() == Some(k) ==> k.id() != keys.other(
                receiver.spec_choice(),
            ).id(),
{
}

/// Law (non-distinguishability, sender's step): on offers of one and the
/// same modulus size — as key generation at equal bit sizes produces them,
/// whatever the choices behind them — the sender's encrypt step succeeds for
/// exactly the same message pairs: its acceptance depends only on the
/// message lengths and that size, never on which slot holds the real key.
/// With the success clause of `encrypt_messages`, a message pair accepted
/// for one choice is accepted for the other.
pub proof fn lemma_encrypt_acceptance_choice_independent(
    kx: ReceiverPublicKeys,
    ky: ReceiverPublicKeys,
    bits: usize,
    m0: Seq<u8>,
    m1: Seq<u8>,
)
    requires
        kx.uniform_size_for(bits),
        ky.uniform_size_for(bits),
    ensures
        (kx.pk0.spec_accepts(m0) && kx.pk1.spec_accepts(m1)) == (ky.pk0.spec_accepts(m0)
            && ky.pk1.spec_accepts(m1)),
{
}

/// Law (non-distinguishability of the offer): whatever the choice, the offer
/// holds the same two key ids, the real and the decoy one; only their order
/// encodes the choice. `encrypt_messages` requires nothing of an offer and
/// treats its slots identically, so the sender's step accepts the offer of
/// either choice alike.
pub proof fn lemma_offer_ids_independent_of_choice(
    receiver: OTReceiver,
    keys: ReceiverPublicKeys,
)
    requires
        receiver.offered(keys),
    ensures
        Set::empty().insert(keys.pk0.id()).insert(keys.pk1.id()) =~= Set::empty().insert(
            receiver.retained_key_id(),
        ).insert(keys.other(receiver.spec_choice()).id()),
{
}

} // verus!
