use vstd::prelude::*;
use base64::engine::general_purpose::URL_SAFE_NO_PAD;
use base64::{DecodeError, Engine};
use crate::error::TextError;

verus! {

/// The character that stands for the six-bit value `v` in the URL-safe
/// alphabet: `A`-`Z`, `a`-`z`, `0`-`9`, `-`, `_`.
pub open spec fn symbol(v: int) -> char
    recommends
        0 <= v < 64,
{
    if v < 26 {
        ('A' as int + v) as char
    } else if v < 52 {
        ('a' as int + (v - 26)) as char
    } else if v < 62 {
        ('0' as int + (v - 52)) as char
    } else if v == 62 {
        '-'
    } else {
        '_'
    }
}

/// The URL-safe base64 text of `bytes`, without padding: every three bytes
/// give four characters, and a last group of one or two bytes gives two or
/// three, its unused low bits being zero.
pub open spec fn base64url(bytes: Seq<u8>) -> Seq<char>
    decreases bytes.len(),
{
    if bytes.len() == 0 {
        Seq::empty()
    } else if bytes.len() == 1 {
        seq![symbol(bytes[0] as int / 4), symbol(bytes[0] as int % 4 * 16)]
    } else if bytes.len() == 2 {
        seq![
            symbol(bytes[0] as int / 4),
            symbol(bytes[0] as int % 4 * 16 + bytes[1] as int / 16),
            symbol(bytes[1] as int % 16 * 4),
        ]
    } else {
        seq![
            symbol(bytes[0] as int / 4),
            symbol(bytes[0] as int % 4 * 16 + bytes[1] as int / 16),
            symbol(bytes[1] as int % 16 * 4 + bytes[2] as int / 64),
            symbol(bytes[2] as int % 64),
        ] + base64url(bytes.skip(3))
    }
}

/// The bytes that `text` is the URL-safe base64 of, if there are any.
pub open spec fn decoded(text: Seq<char>) -> Option<Seq<u8>> {
    if exists|bytes: Seq<u8>| base64url(bytes) == text {
        Some(choose|bytes: Seq<u8>| base64url(bytes) == text)
    } else {
        None
    }
}

/// Whether `c` belongs to the URL-safe alphabet. The padding character `=`
/// does not.
pub open spec fn is_url_safe(c: char) -> bool {
    'A' <= c <= 'Z' || 'a' <= c <= 'z' || '0' <= c <= '9' || c == '-' || c == '_'
}

/// Number of characters in the text of `n` bytes.
pub open spec fn encoded_len(n: nat) -> nat {
    if n % 3 == 0 {
        4 * (n / 3)
    } else {
        4 * (n / 3) + n % 3 + 1
    }
}

/// Different six-bit values have different symbols.
proof fn lemma_symbol_injective(x: int, y: int)
    requires
        0 <= x < 64,
        0 <= y < 64,
        symbol(x) == symbol(y),
    ensures
        x == y,
{
    assert(symbol(x) as int == symbol(y) as int);
}

/// The text of `bytes` has `encoded_len(bytes.len())` characters.
pub proof fn lemma_encoded_len(bytes: Seq<u8>)
    ensures
        base64url(bytes).len() == encoded_len(bytes.len()),
    decreases bytes.len(),
{
    if bytes.len() >= 3 {
        lemma_encoded_len(bytes.skip(3));
    }
}

/// The text of any bytes holds characters of the URL-safe alphabet only:
/// none that needs escaping in a URL, and no padding.
pub proof fn lemma_text_is_url_safe(bytes: Seq<u8>)
    ensures
        forall|i: int|
            0 <= i < base64url(bytes).len() ==> is_url_safe(#[trigger] base64url(bytes)[i]),
    decreases bytes.len(),
{
    assert forall|v: int| 0 <= v < 64 implies is_url_safe(#[trigger] symbol(v)) by {}
    let text = base64url(bytes);
    if bytes.len() >= 3 {
        let rest = base64url(bytes.skip(3));
        lemma_text_is_url_safe(bytes.skip(3));
        assert forall|i: int| 0 <= i < text.len() implies is_url_safe(#[trigger] text[i]) by {
            if i >= 4 {
                assert(text[i] == rest[i - 4]);
            }
        }
    }
}

/// Two byte strings with the same text are the same byte string.
pub proof fn lemma_base64url_injective(a: Seq<u8>, b: Seq<u8>)
    requires
        base64url(a) == base64url(b),
    ensures
        a == b,
    decreases a.len(),
{
    lemma_encoded_len(a);
    lemma_encoded_len(b);
    assert(a.len() == b.len());
    let ta = base64url(a);
    let tb = base64url(b);
    if a.len() == 0 {
        assert(a =~= b);
    } else if a.len() == 1 {
        assert(ta[0] == tb[0] && ta[1] == tb[1]);
        lemma_symbol_injective(a[0] as int / 4, b[0] as int / 4);
        lemma_symbol_injective(a[0] as int % 4 * 16, b[0] as int % 4 * 16);
        assert(a =~= b);
    } else if a.len() == 2 {
        assert(ta[0] == tb[0] && ta[1] == tb[1] && ta[2] == tb[2]);
        lemma_symbol_injective(a[0] as int / 4, b[0] as int / 4);
        lemma_symbol_injective(a[0] as int % 4 * 16 + a[1] as int / 16, b[0] as int % 4 * 16 + b[1] as int / 16);
        lemma_symbol_injective(a[1] as int % 16 * 4, b[1] as int % 16 * 4);
        assert(a =~= b);
    } else {
        let ra = base64url(a.skip(3));
        let rb = base64url(b.skip(3));
        assert(ta[0] == tb[0] && ta[1] == tb[1] && ta[2] == tb[2] && ta[3] == tb[3]);
        lemma_symbol_injective(a[0] as int / 4, b[0] as int / 4);
        lemma_symbol_injective(a[0] as int % 4 * 16 + a[1] as int / 16, b[0] as int % 4 * 16 + b[1] as int / 16);
        lemma_symbol_injective(a[1] as int % 16 * 4 + a[2] as int / 64, b[1] as int % 16 * 4 + b[2] as int / 64);
        lemma_symbol_injective(a[2] as int % 64, b[2] as int % 64);
        assert(ra =~= ta.skip(4));
        assert(rb =~= tb.skip(4));
        lemma_base64url_injective(a.skip(3), b.skip(3));
        assert forall|i: int| 0 <= i < a.len() implies a[i] == b[i] by {
            if i >= 3 {
                assert(a[i] == a.skip(3)[i - 3]);
                assert(b[i] == b.skip(3)[i - 3]);
            }
        }
        assert(a =~= b);
    }
}

/// Decoding the text of a signature gives the signature back, whatever its
/// length: for the 32 bytes of a keyed hash, the 64 of an Ed25519 signature,
/// and any other.
pub proof fn lemma_decode_encode(sig: Seq<u8>)
    ensures
        decoded(base64url(sig)) == Some(sig),
{
    let text = base64url(sig);
    assert(base64url(sig) == text);
    let found = choose|bytes: Seq<u8>| base64url(bytes) == text;
    lemma_base64url_injective(found, sig);
}

/// Encoding what a text decodes to gives the text back.
pub proof fn lemma_encode_decode(text: Seq<char>)
    requires
        decoded(text) is Some,
    ensures
        base64url(decoded(text)->Some_0) == text,
{
}

#[verifier::external_type_specification]
#[verifier::external_body]
pub struct ExDecodeError(DecodeError);

/// `Engine::encode` of `base64`'s `URL_SAFE_NO_PAD` engine.
///
/// Not proved: that the engine writes the text that `base64url` describes.
#[verifier::external_body]
fn encode_url_safe(data: &[u8]) -> (text: String)
    ensures
        text@ == base64url(data@),
{
    URL_SAFE_NO_PAD.encode(data)
}

/// `Engine::decode` of `base64`'s `URL_SAFE_NO_PAD` engine.
///
/// Not proved: that the engine accepts exactly the texts that `base64url`
/// produces (no padding, no stray bits in the last character, no foreign
/// character), and gives back the bytes they were made from.
#[verifier::external_body]
fn decode_url_safe(text: &str) -> (r: Result<Vec<u8>, DecodeError>)
    ensures
        match r {
            Ok(bytes) => base64url(bytes@) == text@,
            Err(_) => forall|bytes: Seq<u8>| base64url(bytes) != text@,
        },
{
    URL_SAFE_NO_PAD.decode(text)
}

/// The text form of a raw signature.
pub fn encode_signature(sig: &[u8]) -> (text: String)
    ensures
        text@ == base64url(sig@),
        decoded(text@) == Some(sig@),
{
    proof {
        lemma_decode_encode(sig@);
    }
    encode_url_safe(sig)
}

/// The raw signature that `text` stands for. Text that is not the URL-safe
/// base64 of any byte string is refused.
pub fn decode_signature(text: &str) -> (r: Result<Vec<u8>, TextError>)
    ensures
        match r {
            Ok(sig) => decoded(text@) == Some(sig@),
            Err(e) => e == TextError::Decode && decoded(text@) is None,
        },
{
    match decode_url_safe(text) {
        Ok(sig) => {
            proof {
                lemma_decode_encode(sig@);
            }
            Ok(sig)
        },
        Err(_) => Err(TextError::Decode),
    }
}

} // verus!
