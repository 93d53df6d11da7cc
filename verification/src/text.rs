use vstd::prelude::*;
use crate::ed25519::{
    ed25519_key_valid, ed25519_signature, ed25519_valid, key_pair, Ed25519Signer, Ed25519Verifier,
    SIGNATURE_LEN,
};
use crate::encoding::{base64url, decode_signature, decoded, encode_signature};
use crate::error::TextError;
use crate::format::TextSignFormat;
use crate::key::{key_prefix, KEY_LEN};
use crate::keyed_hash::{keyed_digest, Blake3, DIGEST_LEN};

verus! {

/// Something that signs a message held in memory.
pub trait TextSign {
    /// Number of bytes in every signature of this signer.
    spec fn signature_len() -> nat;

    /// The signature that this signer gives for `data`.
    spec fn signature_of(&self, data: Seq<u8>) -> Seq<u8>;

    /// Signs `data`. Signing never fails.
    fn sign(&self, data: &[u8]) -> (sig: Vec<u8>)
        ensures
            sig@ == self.signature_of(data@),
            sig@.len() == Self::signature_len(),
    ;
}

/// Something that checks a signature against a message held in memory.
pub trait TextVerify {
    /// Whether `sig` has the shape of a signature at all. Verification is
    /// only attempted on well-formed signatures.
    spec fn well_formed(sig: Seq<u8>) -> bool;

    /// Whether `sig` is valid for `data` under this verifier's key.
    spec fn accepts(&self, data: Seq<u8>, sig: Seq<u8>) -> bool;

    /// Checks `sig` against `data`. A signature that does not match gives
    /// `Ok(false)`; only a malformed one is an error.
    fn verify(&self, data: &[u8], sig: &[u8]) -> (r: Result<bool, TextError>)
        ensures
            Self::well_formed(sig@) ==> r == Ok::<bool, TextError>(self.accepts(data@, sig@)),
            !Self::well_formed(sig@) ==> r == Err::<bool, TextError>(TextError::SignatureLength),
    ;
}

/// Key material that can be built from the raw bytes of a key file.
pub trait KeyLoad: Sized {
    /// Whether `material` can be loaded as a key of this kind.
    spec fn loadable(material: Seq<u8>) -> bool;

    /// The key bytes that this value holds.
    spec fn key_material(&self) -> Seq<u8>;

    /// Builds the key from the bytes of a key file. Only the first 32 bytes
    /// count; fewer than 32 are refused.
    fn load(material: &[u8]) -> (r: Result<Self, TextError>)
        ensures
            material@.len() < KEY_LEN ==> !Self::loadable(material@),
            match r {
                Ok(key) => Self::loadable(material@) && key.key_material()
                    == key_prefix(material@),
                Err(e) => !Self::loadable(material@) && e == TextError::KeyFormat,
            },
    ;
}

/// The byte strings that a list of artifacts holds, in order.
pub open spec fn artifacts(keys: Seq<Vec<u8>>) -> Seq<Seq<u8>> {
    Seq::new(keys.len(), |i: int| keys[i]@)
}

/// A kind of key that can be made afresh.
pub trait KeyGenerator {
    /// What holds of every set of artifacts that generation can return.
    spec fn generated(keys: Seq<Seq<u8>>) -> bool;

    /// Makes fresh key material and returns its artifacts in order. Nothing
    /// is written anywhere.
    fn generate() -> (keys: Vec<Vec<u8>>)
        ensures
            Self::generated(artifacts(keys@)),
    ;
}

/// The raw signature of `data` under the 32-byte `key`, for each algorithm.
pub open spec fn raw_signature(format: TextSignFormat, key: Seq<u8>, data: Seq<u8>) -> Seq<u8> {
    match format {
        TextSignFormat::Blake3 => keyed_digest(key, data),
        TextSignFormat::Ed25519 => ed25519_signature(key, data),
    }
}

/// Number of bytes in a raw signature, for each algorithm.
pub open spec fn signature_len(format: TextSignFormat) -> nat {
    match format {
        TextSignFormat::Blake3 => DIGEST_LEN as nat,
        TextSignFormat::Ed25519 => SIGNATURE_LEN as nat,
    }
}

/// Whether the 32 bytes `verifying` are the key that verifies what the
/// signing key `signing` signs: the same secret for the keyed hash; the
/// public key of the private key for Ed25519.
pub open spec fn verifies_for(format: TextSignFormat, verifying: Seq<u8>, signing: Seq<u8>) -> bool {
    match format {
        TextSignFormat::Blake3 => verifying == signing && signing.len() == KEY_LEN,
        TextSignFormat::Ed25519 => {
            &&& verifying.len() == KEY_LEN
            &&& key_pair(verifying, signing)
            &&& ed25519_key_valid(verifying)
        },
    }
}

/// Whether key material can be loaded for verification under `format`.
pub open spec fn verifying_key_ok(format: TextSignFormat, material: Seq<u8>) -> bool {
    material.len() >= KEY_LEN && (format == TextSignFormat::Ed25519 ==> ed25519_key_valid(
        key_prefix(material),
    ))
}

/// What verification of the raw signature `sig` against `data` comes to,
/// under the 32-byte `key`: an error for a signature too short to be one,
/// and otherwise whether the signature is valid.
pub open spec fn raw_verdict(
    format: TextSignFormat,
    key: Seq<u8>,
    data: Seq<u8>,
    sig: Seq<u8>,
) -> Result<bool, TextError> {
    match format {
        TextSignFormat::Blake3 => Ok(sig == keyed_digest(key, data)),
        TextSignFormat::Ed25519 => if sig.len() < SIGNATURE_LEN {
            Err(TextError::SignatureLength)
        } else {
            Ok(ed25519_valid(key, data, sig.subrange(0, SIGNATURE_LEN as int)))
        },
    }
}

/// What a verification request comes to. The signature text is decoded
/// first, then the key is loaded, then the signature is checked; the first
/// of these to fail decides the error.
pub open spec fn verdict(
    format: TextSignFormat,
    material: Seq<u8>,
    data: Seq<u8>,
    sig: Seq<char>,
) -> Result<bool, TextError> {
    match decoded(sig) {
        None => Err(TextError::Decode),
        Some(raw) => if !verifying_key_ok(format, material) {
            Err(TextError::KeyFormat)
        } else {
            raw_verdict(format, key_prefix(material), data, raw)
        },
    }
}

/// Signs `input` with the key held in the raw material `key` and returns the
/// signature as URL-safe base64 without padding.
pub fn process_text_sign(input: &[u8], key: &[u8], format: TextSignFormat) -> (r: Result<
    String,
    TextError,
>)
    ensures
        key@.len() < KEY_LEN ==> r is Err && r->Err_0 == TextError::KeyFormat,
        key@.len() >= KEY_LEN ==> r is Ok && r->Ok_0@ == base64url(
            raw_signature(format, key_prefix(key@), input@),
        ),
        key@.len() >= KEY_LEN ==> raw_signature(format, key_prefix(key@), input@).len()
            == signature_len(format),
        key@.len() >= KEY_LEN ==> forall|verifying: Seq<u8>| #[trigger]
            verifies_for(format, verifying, key_prefix(key@)) ==> verdict(
                format,
                verifying,
                input@,
                r->Ok_0@,
            ) == Ok::<bool, TextError>(true),
{
    let signed = match format {
        TextSignFormat::Blake3 => {
            match Blake3::load(key) {
                Ok(signer) => signer.sign(input),
                Err(e) => {
                    return Err(e);
                },
            }
        },
        TextSignFormat::Ed25519 => {
            match Ed25519Signer::load(key) {
                Ok(signer) => signer.sign(input),
                Err(e) => {
                    return Err(e);
                },
            }
        },
    };
    let text = encode_signature(signed.as_slice());
    proof {
        let signing = key_prefix(key@);
        assert forall|verifying: Seq<u8>| #[trigger]
            verifies_for(format, verifying, signing) implies verdict(
            format,
            verifying,
            input@,
            text@,
        ) == Ok::<bool, TextError>(true) by {
            assert(key_prefix(verifying) =~= verifying);
            assert(signed@.subrange(0, signed@.len() as int) =~= signed@);
        }
    }
    Ok(text)
}

/// Checks the signature text `sig` against `input` with the key held in the
/// raw material `key`. A signature that does not match gives `Ok(false)`;
/// for the keyed hash, so does one that has not the 32 bytes of a digest.
pub fn process_text_verify(input: &[u8], key: &[u8], format: TextSignFormat, sig: &str) -> (r:
    Result<bool, TextError>)
    ensures
        r == verdict(format, key@, input@, sig@),
        format == TextSignFormat::Blake3 && key@.len() >= KEY_LEN && decoded(sig@) is Some
            && decoded(sig@)->Some_0.len() != DIGEST_LEN ==> r == Ok::<bool, TextError>(false),
{
    let raw = match decode_signature(sig) {
        Ok(raw) => raw,
        Err(e) => {
            return Err(e);
        },
    };
    match format {
        TextSignFormat::Blake3 => {
            match Blake3::load(key) {
                Ok(verifier) => verifier.verify(input, raw.as_slice()),
                Err(e) => Err(e),
            }
        },
        TextSignFormat::Ed25519 => {
            match Ed25519Verifier::load(key) {
                Ok(verifier) => verifier.verify(input, raw.as_slice()),
                Err(e) => Err(e),
            }
        },
    }
}

/// What holds of the artifacts that generation returns for `format`.
pub open spec fn generated_for(format: TextSignFormat, keys: Seq<Seq<u8>>) -> bool {
    match format {
        TextSignFormat::Blake3 => <Blake3 as KeyGenerator>::generated(keys),
        TextSignFormat::Ed25519 => <Ed25519Signer as KeyGenerator>::generated(keys),
    }
}

/// Makes fresh key material for `format`: one secret for the keyed hash; the
/// public key and then the private key for Ed25519.
pub fn process_text_generate(format: TextSignFormat) -> (keys: Vec<Vec<u8>>)
    ensures
        generated_for(format, artifacts(keys@)),
{
    match format {
        TextSignFormat::Blake3 => Blake3::generate(),
        TextSignFormat::Ed25519 => Ed25519Signer::generate(),
    }
}

} // verus!
