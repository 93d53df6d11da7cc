use vstd::prelude::*;
use vstd::slice::slice_to_vec;
use ed25519_dalek::{Signature, Signer, SigningKey, Verifier, VerifyingKey};
use rand::rngs::OsRng;
use crate::error::TextError;
use crate::key::{key_bytes, key_prefix, KEY_LEN};
use crate::text::{artifacts, KeyGenerator, KeyLoad, TextSign, TextVerify};

verus! {

/// Number of bytes in an Ed25519 signature.
pub const SIGNATURE_LEN: usize = 64;

/// The Ed25519 signature that the private key `seed` gives for `data`.
pub uninterp spec fn ed25519_signature(seed: Seq<u8>, data: Seq<u8>) -> Seq<u8>;

/// The public key that belongs to the private key `seed`.
pub uninterp spec fn ed25519_public_key(seed: Seq<u8>) -> Seq<u8>;

/// Whether the 32 bytes `public` encode a point that can serve as a public key.
pub uninterp spec fn ed25519_key_valid(public: Seq<u8>) -> bool;

/// Whether the public key `public` validates the 64 bytes `sig` for `data`.
pub uninterp spec fn ed25519_valid(public: Seq<u8>, data: Seq<u8>, sig: Seq<u8>) -> bool;

/// `Signer::sign` on the `SigningKey` that `SigningKey::from_bytes` builds
/// from `seed`, with the signature written out as bytes.
///
/// Not proved: that the signature is a function of seed and message alone
/// (Ed25519 signing is deterministic), and that the scheme is correct, that
/// is, the public key of the same seed validates what the seed signed.
#[verifier::external_body]
fn sign_with_seed(seed: &[u8; 32], data: &[u8]) -> (sig: [u8; 64])
    ensures
        sig@ == ed25519_signature(seed@, data@),
        ed25519_valid(ed25519_public_key(seed@), data@, sig@),
{
    SigningKey::from_bytes(seed).sign(data).to_bytes()
}

/// `SigningKey::verifying_key` on the key built from `seed`, as bytes.
///
/// Not proved: that the public key is a function of the seed alone, and that
/// its bytes decode again as a public key.
#[verifier::external_body]
fn public_of_seed(seed: &[u8; 32]) -> (public: [u8; 32])
    ensures
        public@ == ed25519_public_key(seed@),
        ed25519_key_valid(public@),
{
    SigningKey::from_bytes(seed).verifying_key().to_bytes()
}

/// Whether `VerifyingKey::from_bytes` accepts `public`.
#[verifier::external_body]
fn public_key_decodes(public: &[u8; 32]) -> (ok: bool)
    ensures
        ok == ed25519_key_valid(public@),
{
    VerifyingKey::from_bytes(public).is_ok()
}

/// `Verifier::verify` on the `VerifyingKey` decoded from `public`; every
/// rejection by the outside crate comes back as `false`.
#[verifier::external_body]
fn verify_with_key(public: &[u8; 32], data: &[u8], sig: &[u8; 64]) -> (ok: bool)
    requires
        ed25519_key_valid(public@),
    ensures
        ok == ed25519_valid(public@, data@, sig@),
{
    match VerifyingKey::from_bytes(public) {
        Ok(key) => key.verify(data, &Signature::from_bytes(sig)).is_ok(),
        Err(_) => false,
    }
}

/// `SigningKey::generate` on the operating system's random source; the
/// private seed of the new key. Nothing is claimed of which seed comes back.
#[verifier::external_body]
fn fresh_seed() -> (seed: [u8; 32]) {
    SigningKey::generate(&mut OsRng).to_bytes()
}

/// The first 64 bytes of `sig`, where it has that many.
pub fn signature_bytes(sig: &[u8]) -> (r: Result<[u8; 64], TextError>)
    ensures
        sig@.len() < SIGNATURE_LEN ==> r is Err && r->Err_0 == TextError::SignatureLength,
        sig@.len() >= SIGNATURE_LEN ==> r is Ok && r->Ok_0@ == sig@.subrange(
            0,
            SIGNATURE_LEN as int,
        ),
{
    if sig.len() < SIGNATURE_LEN {
        return Err(TextError::SignatureLength);
    }
    let mut out = [0u8; 64];
    let mut i: usize = 0;
    while i < SIGNATURE_LEN
        invariant
            i <= SIGNATURE_LEN,
            sig@.len() >= SIGNATURE_LEN,
            forall|j: int| 0 <= j < i ==> out@[j] == sig@[j],
        decreases SIGNATURE_LEN - i,
    {
        out[i] = sig[i];
        i += 1;
    }
    assert(out@ =~= sig@.subrange(0, SIGNATURE_LEN as int));
    Ok(out)
}

/// The private half of an Ed25519 key pair: the 32-byte seed.
pub struct Ed25519Signer {
    key: [u8; 32],
}

/// The public half of an Ed25519 key pair: 32 bytes that decode as a key.
pub struct Ed25519Verifier {
    key: [u8; 32],
}

/// Whether `public` is the public key of the private key `private`.
pub open spec fn key_pair(public: Seq<u8>, private: Seq<u8>) -> bool {
    public == ed25519_public_key(private)
}

impl Ed25519Signer {
    /// The seed this signer signs with.
    pub closed spec fn key(&self) -> Seq<u8> {
        self.key@
    }

    pub fn new(key: [u8; 32]) -> (r: Self)
        ensures
            r.key() == key@,
    {
        Self { key }
    }

    /// Builds the signer from raw material: its first 32 bytes.
    pub fn try_new(key: &[u8]) -> (r: Result<Self, TextError>)
        ensures
            key@.len() < KEY_LEN ==> r is Err && r->Err_0 == TextError::KeyFormat,
            key@.len() >= KEY_LEN ==> r is Ok && r->Ok_0.key() == key_prefix(key@),
    {
        match key_bytes(key) {
            Ok(k) => Ok(Self::new(k)),
            Err(e) => Err(e),
        }
    }

    /// The public key that verifies what this signer signs.
    pub fn public_key(&self) -> (public: [u8; 32])
        ensures
            key_pair(public@, self.key()),
            ed25519_key_valid(public@),
    {
        public_of_seed(&self.key)
    }
}

impl Ed25519Verifier {
    #[verifier::type_invariant]
    spec fn decodes(&self) -> bool {
        ed25519_key_valid(self.key@)
    }

    /// The public key this verifier checks against.
    pub closed spec fn key(&self) -> Seq<u8> {
        self.key@
    }

    /// Wraps 32 bytes that are known to decode as a public key.
    pub fn new(key: [u8; 32]) -> (r: Self)
        requires
            ed25519_key_valid(key@),
        ensures
            r.key() == key@,
    {
        Self { key }
    }

    /// Builds the verifier from raw material: its first 32 bytes, which must
    /// decode as a public key.
    pub fn try_new(key: &[u8]) -> (r: Result<Self, TextError>)
        ensures
            match r {
                Ok(v) => key@.len() >= KEY_LEN && ed25519_key_valid(key_prefix(key@)) && v.key()
                    == key_prefix(key@),
                Err(e) => e == TextError::KeyFormat && (key@.len() < KEY_LEN || !ed25519_key_valid(
                    key_prefix(key@),
                )),
            },
    {
        match key_bytes(key) {
            Ok(k) => Self::from_public(k),
            Err(e) => Err(e),
        }
    }

    /// Wraps `key` where it decodes as a public key, and refuses it otherwise.
    pub fn from_public(key: [u8; 32]) -> (r: Result<Self, TextError>)
        ensures
            match r {
                Ok(v) => ed25519_key_valid(key@) && v.key() == key@,
                Err(e) => e == TextError::KeyFormat && !ed25519_key_valid(key@),
            },
    {
        if public_key_decodes(&key) {
            Ok(Self::new(key))
        } else {
            Err(TextError::KeyFormat)
        }
    }
}

impl TextSign for Ed25519Signer {
    open spec fn signature_len() -> nat {
        SIGNATURE_LEN as nat
    }

    open spec fn signature_of(&self, data: Seq<u8>) -> Seq<u8> {
        ed25519_signature(self.key(), data)
    }

    /// Besides being the signature of `data`, what comes back is accepted by
    /// the public key that belongs to this signer.
    fn sign(&self, data: &[u8]) -> (sig: Vec<u8>)
        ensures
            ed25519_valid(ed25519_public_key(self.key()), data@, sig@),
    {
        let sig = sign_with_seed(&self.key, data);
        slice_to_vec(sig.as_slice())
    }
}

impl KeyLoad for Ed25519Signer {
    open spec fn loadable(material: Seq<u8>) -> bool {
        material.len() >= KEY_LEN
    }

    open spec fn key_material(&self) -> Seq<u8> {
        self.key()
    }

    fn load(material: &[u8]) -> (r: Result<Self, TextError>) {
        Self::try_new(material)
    }
}

impl KeyGenerator for Ed25519Signer {
    /// Two artifacts of 32 bytes each: the public key first, then the
    /// private key it belongs to.
    open spec fn generated(keys: Seq<Seq<u8>>) -> bool {
        &&& keys.len() == 2
        &&& keys[0].len() == KEY_LEN
        &&& keys[1].len() == KEY_LEN
        &&& key_pair(keys[0], keys[1])
        &&& ed25519_key_valid(keys[0])
    }

    fn generate() -> (keys: Vec<Vec<u8>>) {
        let seed = fresh_seed();
        let public = public_of_seed(&seed);
        let mut keys: Vec<Vec<u8>> = Vec::new();
        keys.push(slice_to_vec(public.as_slice()));
        keys.push(slice_to_vec(seed.as_slice()));
        assert(artifacts(keys@) =~= seq![public@, seed@]);
        keys
    }
}

impl TextVerify for Ed25519Verifier {
    /// A signature needs at least 64 bytes; the first 64 are the signature.
    open spec fn well_formed(sig: Seq<u8>) -> bool {
        sig.len() >= SIGNATURE_LEN
    }

    open spec fn accepts(&self, data: Seq<u8>, sig: Seq<u8>) -> bool {
        ed25519_valid(self.key(), data, sig.subrange(0, SIGNATURE_LEN as int))
    }

    fn verify(&self, data: &[u8], sig: &[u8]) -> (r: Result<bool, TextError>) {
        proof {
            use_type_invariant(self);
        }
        match signature_bytes(sig) {
            Ok(s) => Ok(verify_with_key(&self.key, data, &s)),
            Err(e) => Err(e),
        }
    }
}

impl KeyLoad for Ed25519Verifier {
    open spec fn loadable(material: Seq<u8>) -> bool {
        material.len() >= KEY_LEN && ed25519_key_valid(key_prefix(material))
    }

    open spec fn key_material(&self) -> Seq<u8> {
        self.key()
    }

    fn load(material: &[u8]) -> (r: Result<Self, TextError>) {
        Self::try_new(material)
    }
}

} // verus!
