use vstd::prelude::*;
use vstd::slice::slice_to_vec;
use vstd::string::StrSliceExecFns;
use vstd::utf8::is_ascii_chars;
use crate::error::TextError;
use crate::genpass::{bytes_of, lemma_pools_ascii, process_genpass, text_of, GenPassOpt};
use crate::key::{key_bytes, key_prefix, KEY_LEN};
use crate::text::{artifacts, KeyGenerator, KeyLoad, TextSign, TextVerify};

verus! {

/// Number of bytes in a keyed-hash signature.
pub const DIGEST_LEN: usize = 32;

/// The BLAKE3 keyed hash of `data` under the 32-byte `key`.
pub uninterp spec fn keyed_digest(key: Seq<u8>, data: Seq<u8>) -> Seq<u8>;

/// `blake3::keyed_hash`, with the digest copied out of the `Hash` it returns.
///
/// Not proved: that the 32 bytes returned are a function of the key and the
/// input alone, which `keyed_digest` names.
#[verifier::external_body]
fn keyed_hash(key: &[u8; 32], data: &[u8]) -> (digest: [u8; 32])
    ensures
        digest@ == keyed_digest(key@, data@),
{
    *blake3::keyed_hash(key, data).as_bytes()
}

/// Whether `a` and `b` hold the same bytes. A length mismatch is settled at
/// once; equal lengths are compared without leaving early, so the time taken
/// does not tell where the first difference lies.
pub fn same_bytes(a: &[u8], b: &[u8]) -> (r: bool)
    ensures
        r == (a@ == b@),
{
    if a.len() != b.len() {
        return false;
    }
    let mut diff: u8 = 0;
    let mut i: usize = 0;
    while i < a.len()
        invariant
            i <= a@.len(),
            a@.len() == b@.len(),
            (diff == 0) == (forall|j: int| 0 <= j < i ==> a@[j] == b@[j]),
        decreases a@.len() - i,
    {
        let x: u8 = a[i];
        let y: u8 = b[i];
        let d: u8 = diff;
        assert(((d | (x ^ y)) == 0) == (d == 0 && x == y)) by (bit_vector);
        diff = diff | (x ^ y);
        i += 1;
    }
    assert((diff == 0) == (a@ =~= b@));
    diff == 0
}

/// A keyed-hash signer and verifier: 32 bytes of shared secret.
pub struct Blake3 {
    key: [u8; 32],
}

impl Blake3 {
    /// The secret this value signs and verifies with.
    pub closed spec fn key(&self) -> Seq<u8> {
        self.key@
    }

    /// The signature of `data` under `key`.
    pub open spec fn signature(key: Seq<u8>, data: Seq<u8>) -> Seq<u8> {
        keyed_digest(key, data)
    }

    /// Whether `sig` is the signature of `data` under `key`.
    pub open spec fn accepts(key: Seq<u8>, data: Seq<u8>, sig: Seq<u8>) -> bool {
        sig == Self::signature(key, data)
    }

    pub fn new(key: [u8; 32]) -> (r: Self)
        ensures
            r.key() == key@,
    {
        Self { key }
    }

    /// Builds the key from raw material: its first 32 bytes.
    pub fn try_new(key: &[u8]) -> (r: Result<Self, TextError>)
        ensures
            key@.len() < KEY_LEN ==> r is Err && r->Err_0 == TextError::KeyFormat,
            key@.len() >= KEY_LEN ==> r is Ok && r->Ok_0.key() == key_prefix(key@),
    {
        match key_bytes(key) {
            Ok(k) => Ok(Self::new(k)),
            Err(e) => Err(e),
        }
    }
}

impl TextSign for Blake3 {
    open spec fn signature_len() -> nat {
        DIGEST_LEN as nat
    }

    open spec fn signature_of(&self, data: Seq<u8>) -> Seq<u8> {
        Self::signature(self.key(), data)
    }

    fn sign(&self, data: &[u8]) -> (sig: Vec<u8>) {
        let digest = keyed_hash(&self.key, data);
        slice_to_vec(digest.as_slice())
    }
}

impl TextVerify for Blake3 {
    /// Any byte string may be offered as a keyed-hash signature; one of the
    /// wrong length simply does not match.
    open spec fn well_formed(sig: Seq<u8>) -> bool {
        true
    }

    open spec fn accepts(&self, data: Seq<u8>, sig: Seq<u8>) -> bool {
        Self::accepts(self.key(), data, sig)
    }

    /// The digest has 32 bytes, so a signature of any other length is
    /// rejected, whatever it holds.
    fn verify(&self, data: &[u8], sig: &[u8]) -> (r: Result<bool, TextError>)
        ensures
            keyed_digest(self.key(), data@).len() == DIGEST_LEN,
            sig@.len() != DIGEST_LEN ==> r == Ok::<bool, TextError>(false),
    {
        let digest = keyed_hash(&self.key, data);
        Ok(same_bytes(digest.as_slice(), sig))
    }
}

impl KeyLoad for Blake3 {
    open spec fn loadable(material: Seq<u8>) -> bool {
        material.len() >= KEY_LEN
    }

    open spec fn key_material(&self) -> Seq<u8> {
        self.key()
    }

    fn load(material: &[u8]) -> (r: Result<Self, TextError>) {
        Self::try_new(material)
    }
}

/// What a fresh secret is drawn as: a password of 32 characters with every
/// character class in it.
pub open spec fn secret_options() -> GenPassOpt {
    GenPassOpt { uppercase: true, lowercase: true, number: true, symbol: true, length: 32 }
}

impl KeyGenerator for Blake3 {
    /// One artifact: a secret of 32 bytes, which are the characters of a
    /// password with every character class in it.
    open spec fn generated(keys: Seq<Seq<u8>>) -> bool {
        &&& keys.len() == 1
        &&& keys[0].len() == KEY_LEN
        &&& secret_options().admits(text_of(keys[0]))
    }

    fn generate() -> (keys: Vec<Vec<u8>>) {
        let password = process_genpass(
            GenPassOpt { uppercase: true, lowercase: true, number: true, symbol: true, length: 32 },
        );
        let secret = password.as_str();
        let key = secret.as_bytes_vec();
        proof {
            broadcast use vstd::string::is_ascii_spec_bytes;

            lemma_pools_ascii();
            let text = password@;
            let alphabet = secret_options().alphabet();
            assert(is_ascii_chars(alphabet));
            assert forall|i: int| 0 <= i < text.len() implies '\0' <= #[trigger] text[i]
                <= '\u{7f}' by {
                assert(alphabet.contains(text[i]));
                let k = choose|k: int| 0 <= k < alphabet.len() && alphabet[k] == text[i];
                assert('\0' <= alphabet[k] <= '\u{7f}');
            }
            assert(secret.is_ascii());
            assert(key@ =~= bytes_of(text));
            assert(text_of(key@) =~= text);
        }
        let mut keys: Vec<Vec<u8>> = Vec::new();
        keys.push(key);
        assert(artifacts(keys@) =~= seq![key@]);
        keys
    }
}

} // verus!
