use vstd::prelude::*;

verus! {

#[verifier::external_type_specification]
#[verifier::external_body]
pub struct ExRsaPublicKey(rsa::RsaPublicKey);

#[verifier::external_type_specification]
#[verifier::external_body]
pub struct ExRsaPrivateKey(rsa::RsaPrivateKey);

#[verifier::external_type_specification]
#[verifier::external_body]
pub struct ExRsaError(rsa::errors::Error);

/// The bytes the PKCS#1 v1.5 encryption padding takes from a modulus: a
/// message must be at least this much shorter than the modulus.
pub const PKCS1V15_OVERHEAD_BYTES: usize = 11;

/// The largest modulus, in bytes, the encryption primitive accepts.
pub const MAX_MODULUS_BYTES: usize = 512;

/// The byte size of a modulus generated at `bits` bits: the generator
/// retries until the modulus has exactly `bits` bits.
pub open spec fn key_size_bytes(bits: usize) -> int {
    (bits + 7) / 8
}

/// The public half of a key pair. `key_id` identifies, in the model, the
/// generation event the pair came from: two keys decrypt each other's
/// ciphertexts exactly when their ids agree. `modulus_bytes` is the byte
/// size of the modulus, which bounds what the key can encrypt.
pub struct PublicKey {
    inner: rsa::RsaPublicKey,
    modulus_bytes: usize,
    key_id: Ghost<int>,
}

impl PublicKey {
    /// The generation event this key came from.
    pub closed spec fn id(self) -> int {
        self.key_id@
    }

    /// The byte size of this key's modulus.
    pub closed spec fn spec_modulus_bytes(self) -> usize {
        self.modulus_bytes
    }

    /// The byte size of this key's modulus. Ciphertexts made under the key
    /// have exactly this size.
    pub fn modulus_bytes(&self) -> (r: usize)
        ensures
            r == self.spec_modulus_bytes(),
    {
        self.modulus_bytes
    }

    /// The encryption scheme on this key can hold `msg`: the message fits
    /// the modulus minus the padding overhead, and the modulus is within
    /// the size the primitive accepts.
    pub open spec fn spec_accepts(self, msg: Seq<u8>) -> bool {
        &&& msg.len() + PKCS1V15_OVERHEAD_BYTES <= self.spec_modulus_bytes()
        &&& self.spec_modulus_bytes() <= MAX_MODULUS_BYTES
    }

    /// Whether the encryption scheme on this key can hold `msg`.
    pub fn accepts(&self, msg: &[u8]) -> (r: bool)
        ensures
            r == self.spec_accepts(msg@),
    {
        self.modulus_bytes >= PKCS1V15_OVERHEAD_BYTES && msg.len() <= self.modulus_bytes
            - PKCS1V15_OVERHEAD_BYTES && self.modulus_bytes <= MAX_MODULUS_BYTES
    }
}

/// The private half of a key pair, able to decrypt exactly the ciphertexts
/// made under the public key of the same generation event.
pub struct PrivateKey {
    inner: rsa::RsaPrivateKey,
    key_id: Ghost<int>,
}

impl PrivateKey {
    /// The generation event this key came from.
    pub closed spec fn id(self) -> int {
        self.key_id@
    }
}

/// An encrypted message. The model records which key the bytes were made
/// under and which plaintext they carry; of a ciphertext taken in from
/// outside, nothing is recorded.
pub struct Ciphertext {
    bytes: Vec<u8>,
    key_id: Ghost<int>,
    plaintext: Ghost<Seq<u8>>,
}

impl View for Ciphertext {
    type V = Seq<u8>;

    /// The bytes of the ciphertext, as they go over the wire.
    closed spec fn view(&self) -> Seq<u8> {
        self.bytes@
    }
}

impl Ciphertext {
    /// The generation event of the key this ciphertext was made under.
    pub closed spec fn key_id(self) -> int {
        self.key_id@
    }

    /// The plaintext this ciphertext carries.
    pub closed spec fn plaintext(self) -> Seq<u8> {
        self.plaintext@
    }

    /// The bytes to put on the wire.
    pub fn bytes(&self) -> (r: &Vec<u8>)
        ensures
            r@ == self@,
    {
        &self.bytes
    }

    /// A ciphertext taken in from the wire: nothing is known of its origin,
    /// so nothing is promised of decrypting it.
    pub fn from_bytes(bytes: Vec<u8>) -> (r: Ciphertext)
        ensures
            r@ == bytes@,
    {
        Ciphertext { bytes, key_id: Ghost(arbitrary()), plaintext: Ghost(arbitrary()) }
    }
}

fn wrap_private_key(inner: rsa::RsaPrivateKey) -> PrivateKey {
    PrivateKey { inner, key_id: Ghost(arbitrary()) }
}

fn wrap_public_key(inner: rsa::RsaPublicKey, modulus_bytes: usize) -> PublicKey {
    PublicKey { inner, modulus_bytes, key_id: Ghost(arbitrary()) }
}

/// The key material of one receiver session: the retained private key, its
/// public half, and a decoy public key whose private half is discarded here,
/// inside this function, before it returns.
///
/// Relies on `rsa::RsaPrivateKey::new` to generate each pair at the asked
/// bit size from operating-system randomness, on `rsa::RsaPublicKey::from`
/// to extract a pair's public half, and on `rsa::PublicKeyParts::size` for
/// the modulus byte size. The two generations are independent, so the model
/// gives them distinct ids; the generator retries until a modulus has
/// exactly `bits` bits, so both public halves report the same byte size,
/// `(bits + 7) / 8`. The decoy private key is bound to no variable that
/// outlives this body.
#[verifier::external_body]
pub(crate) fn generate_session_keys(bits: usize) -> (r: Result<
    (PrivateKey, PublicKey, PublicKey),
    rsa::errors::Error,
>)
    ensures
        r matches Ok(t) ==> t.0.id() == t.1.id() && t.2.id() != t.0.id(),
        r matches Ok(t) ==> t.1.spec_modulus_bytes() as int == key_size_bytes(bits)
            && t.2.spec_modulus_bytes() as int == key_size_bytes(bits),
{
    let mut rng = rand::rngs::OsRng;
    let genuine = rsa::RsaPrivateKey::new(&mut rng, bits)?;
    let genuine_public = rsa::RsaPublicKey::from(&genuine);
    let decoy = rsa::RsaPrivateKey::new(&mut rng, bits)?;
    let decoy_public = rsa::RsaPublicKey::from(&decoy);
    drop(decoy);
    let genuine_size = rsa::PublicKeyParts::size(&genuine_public);
    let decoy_size = rsa::PublicKeyParts::size(&decoy_public);
    Ok((
        wrap_private_key(genuine),
        wrap_public_key(genuine_public, genuine_size),
        wrap_public_key(decoy_public, decoy_size),
    ))
}

/// Relies on `rsa::PublicKey::encrypt` with PKCS#1 v1.5 padding. For a
/// message within the key's capacity, on a modulus the primitive accepts,
/// encryption succeeds and pads the ciphertext to exactly the modulus size:
/// the primitive's only length check is against modulus size minus the
/// padding overhead, and its exponent checks pass for every key of this
/// type, since the generation step above builds them all with the default
/// public exponent, inside the primitive's accepted range. The returned
/// bytes decrypt, under the private key of the same generation event, to
/// exactly `msg`; the padding randomness is drawn fresh from the operating
/// system on every call, so two calls on one input differ. The capacity
/// precondition also keeps the call away from the primitive's unchecked
/// size arithmetic, which does not tolerate a modulus below the overhead.
#[verifier::external_body]
pub(crate) fn rsa_encrypt(pk: &PublicKey, msg: &[u8]) -> (r: Result<
    Ciphertext,
    rsa::errors::Error,
>)
    requires
        pk.spec_accepts(msg@),
    ensures
        r is Ok,
        r matches Ok(ct) ==> ct.key_id() == pk.id() && ct.plaintext() == msg@ && ct@.len()
            == pk.spec_modulus_bytes(),
{
    let mut rng = rand::rngs::OsRng;
    let bytes = rsa::PublicKey::encrypt(&pk.inner, &mut rng, rsa::Pkcs1v15Encrypt, msg)?;
    Ok(Ciphertext::from_bytes(bytes))
}

/// Relies on `rsa::RsaPrivateKey::decrypt` with PKCS#1 v1.5 padding: it
/// inverts `rsa::PublicKey::encrypt`, so a ciphertext made under the public
/// key of the same generation event decrypts to the plaintext it carries.
/// Of decrypting under any other key, nothing is promised.
#[verifier::external_body]
pub(crate) fn rsa_decrypt(sk: &PrivateKey, ct: &Ciphertext) -> (r: Result<
    Vec<u8>,
    rsa::errors::Error,
>)
    ensures
        r matches Ok(p) ==> (sk.id() == ct.key_id() ==> p@ == ct.plaintext()),
        r is Err ==> sk.id() != ct.key_id(),
{
    sk.inner.decrypt(rsa::Pkcs1v15Encrypt, ct.bytes.as_slice())
}

} // verus!
