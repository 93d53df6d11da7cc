use vstd::prelude::*;
use crate::ed25519::{
    ed25519_valid, key_pair, Ed25519Signer, Ed25519Verifier, SIGNATURE_LEN,
};
use crate::encoding::{base64url, decoded, lemma_decode_encode};
use crate::error::TextError;
use crate::format::TextSignFormat;
use crate::key::{key_prefix, KEY_LEN};
use crate::keyed_hash::{keyed_digest, Blake3};
use crate::text::{generated_for, raw_signature, raw_verdict, verdict, verifying_key_ok, KeyLoad};

verus! {

/// A keyed-hash signature verifies against the data it was made for, under
/// the key it was made with: as raw bytes, and as text under any key material
/// that starts with the key.
pub proof fn lemma_keyed_hash_verifies_own(material: Seq<u8>, data: Seq<u8>)
    requires
        material.len() >= KEY_LEN,
    ensures
        raw_verdict(
            TextSignFormat::Blake3,
            key_prefix(material),
            data,
            raw_signature(TextSignFormat::Blake3, key_prefix(material), data),
        ) == Ok::<bool, TextError>(true),
        verdict(
            TextSignFormat::Blake3,
            material,
            data,
            base64url(raw_signature(TextSignFormat::Blake3, key_prefix(material), data)),
        ) == Ok::<bool, TextError>(true),
{
    lemma_decode_encode(raw_signature(TextSignFormat::Blake3, key_prefix(material), data));
}

/// A keyed-hash signature made for `data` verifies against `other` exactly
/// when the two have the same digest under the key, and the request succeeds
/// either way.
pub proof fn lemma_keyed_hash_other_data(material: Seq<u8>, data: Seq<u8>, other: Seq<u8>)
    requires
        material.len() >= KEY_LEN,
    ensures
        verdict(
            TextSignFormat::Blake3,
            material,
            other,
            base64url(raw_signature(TextSignFormat::Blake3, key_prefix(material), data)),
        ) == Ok::<bool, TextError>(
            keyed_digest(key_prefix(material), data) == keyed_digest(key_prefix(material), other),
        ),
{
    lemma_decode_encode(raw_signature(TextSignFormat::Blake3, key_prefix(material), data));
}

/// Key material of fewer than 32 bytes cannot be loaded, for signing or for
/// verification, under either algorithm; a verification request with such
/// material and a well-encoded signature is refused for the key's format.
pub proof fn lemma_short_key_refused(
    format: TextSignFormat,
    material: Seq<u8>,
    data: Seq<u8>,
    sig: Seq<u8>,
)
    requires
        material.len() < KEY_LEN,
    ensures
        !<Blake3 as KeyLoad>::loadable(material),
        !<Ed25519Signer as KeyLoad>::loadable(material),
        !<Ed25519Verifier as KeyLoad>::loadable(material),
        !verifying_key_ok(format, material),
        verdict(format, material, data, base64url(sig)) == Err::<bool, TextError>(
            TextError::KeyFormat,
        ),
{
    lemma_decode_encode(sig);
}

/// Key material of more than 32 bytes stands for its first 32: what follows
/// them changes no signature and no verdict.
pub proof fn lemma_long_key_truncated(
    format: TextSignFormat,
    material: Seq<u8>,
    data: Seq<u8>,
    sig: Seq<char>,
)
    requires
        material.len() >= KEY_LEN,
    ensures
        key_prefix(key_prefix(material)) == key_prefix(material),
        verdict(format, material, data, sig) == verdict(format, key_prefix(material), data, sig),
{
    assert(key_prefix(key_prefix(material)) =~= key_prefix(material));
}

/// An Ed25519 signature of fewer than 64 bytes is an error of its own, and
/// not a signature that failed to verify.
pub proof fn lemma_short_signature_refused(material: Seq<u8>, data: Seq<u8>, sig: Seq<u8>)
    requires
        sig.len() < SIGNATURE_LEN,
        verifying_key_ok(TextSignFormat::Ed25519, material),
    ensures
        raw_verdict(TextSignFormat::Ed25519, key_prefix(material), data, sig) == Err::<
            bool,
            TextError,
        >(TextError::SignatureLength),
        verdict(TextSignFormat::Ed25519, material, data, base64url(sig)) == Err::<
            bool,
            TextError,
        >(TextError::SignatureLength),
{
    lemma_decode_encode(sig);
}

/// Generation for Ed25519 gives exactly two artifacts of 32 bytes each, the
/// public key of the second being the first, and the first can be loaded for
/// verification as it is.
pub proof fn lemma_generated_pair(keys: Seq<Seq<u8>>)
    requires
        generated_for(TextSignFormat::Ed25519, keys),
    ensures
        keys.len() == 2,
        keys[0].len() == KEY_LEN && keys[1].len() == KEY_LEN,
        key_pair(keys[0], keys[1]),
        <Ed25519Signer as KeyLoad>::loadable(keys[1]),
        <Ed25519Verifier as KeyLoad>::loadable(keys[0]),
        key_prefix(keys[0]) == keys[0] && key_prefix(keys[1]) == keys[1],
{
    assert(key_prefix(keys[0]) =~= keys[0]);
    assert(key_prefix(keys[1]) =~= keys[1]);
}

/// Generation for the keyed hash gives exactly one artifact of 32 bytes, and
/// it can be loaded as a key as it is, every byte of it being key.
pub proof fn lemma_generated_secret(keys: Seq<Seq<u8>>)
    requires
        generated_for(TextSignFormat::Blake3, keys),
    ensures
        keys.len() == 1,
        keys[0].len() == KEY_LEN,
        <Blake3 as KeyLoad>::loadable(keys[0]),
        key_prefix(keys[0]) == keys[0],
{
    assert(key_prefix(keys[0]) =~= keys[0]);
}

/// What verification of an Ed25519 signature comes to, for any data: the
/// answer of the public key on the first 64 bytes of the signature, and
/// never an error. So a signature made for other data is accepted exactly
/// where the public key accepts it for this data.
pub proof fn lemma_ed25519_verdict(material: Seq<u8>, data: Seq<u8>, sig: Seq<u8>)
    requires
        sig.len() >= SIGNATURE_LEN,
        verifying_key_ok(TextSignFormat::Ed25519, material),
    ensures
        verdict(TextSignFormat::Ed25519, material, data, base64url(sig)) == Ok::<bool, TextError>(
            ed25519_valid(key_prefix(material), data, sig.subrange(0, SIGNATURE_LEN as int)),
        ),
{
    lemma_decode_encode(sig);
}

/// A request to verify text that is no URL-safe base64 fails on the text,
/// whatever the key and the algorithm.
pub proof fn lemma_bad_text_refused(
    format: TextSignFormat,
    material: Seq<u8>,
    data: Seq<u8>,
    sig: Seq<char>,
)
    requires
        decoded(sig) is None,
    ensures
        verdict(format, material, data, sig) == Err::<bool, TextError>(TextError::Decode),
{
}

} // verus!
