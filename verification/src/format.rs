use vstd::prelude::*;
use vstd::string::StringExecFns;
use vstd::utf8::is_ascii_chars;
use crate::error::TextError;

verus! {

/// The signing algorithm that a request selects.
#[derive(Debug, Clone, Copy, PartialEq, Eq, Structural)]
pub enum TextSignFormat {
    /// A keyed hash with a shared 32-byte secret.
    Blake3,
    /// An asymmetric signature with a private and a public key.
    Ed25519,
}

/// The lower-case form of `text`, as `str::to_lowercase` defines it.
pub uninterp spec fn lowercase(text: Seq<char>) -> Seq<char>;

/// The lower-case form of an ASCII character: `A`-`Z` become `a`-`z`, and
/// every other character stays.
pub open spec fn ascii_lower(c: char) -> char {
    if 'A' <= c <= 'Z' {
        (c as int + 32) as char
    } else {
        c
    }
}

/// The lower-case form of an ASCII text, character by character.
pub open spec fn ascii_lowercase(text: Seq<char>) -> Seq<char> {
    Seq::new(text.len(), |i: int| ascii_lower(text[i]))
}

/// `str::to_lowercase`. Not proved: that the result depends on the text
/// alone, and that on ASCII text it changes the letters `A`-`Z` and nothing
/// else.
#[verifier::external_body]
fn to_lowercase(text: &str) -> (lowered: String)
    ensures
        lowered@ == lowercase(text@),
        is_ascii_chars(text@) ==> lowered@ == ascii_lowercase(text@),
{
    text.to_lowercase()
}

impl TextSignFormat {
    /// The lower-case name of the algorithm.
    pub open spec fn name_spec(self) -> Seq<char> {
        match self {
            TextSignFormat::Blake3 => "blake3"@,
            TextSignFormat::Ed25519 => "ed25519"@,
        }
    }

    /// The algorithm that the lower-case `name` selects, if any.
    pub open spec fn named(name: Seq<char>) -> Option<TextSignFormat> {
        if name == TextSignFormat::Blake3.name_spec() {
            Some(TextSignFormat::Blake3)
        } else if name == TextSignFormat::Ed25519.name_spec() {
            Some(TextSignFormat::Ed25519)
        } else {
            None
        }
    }

    /// The lower-case name of the algorithm.
    pub fn name(self) -> (name: &'static str)
        ensures
            name@ == self.name_spec(),
    {
        self.into()
    }

    /// Selects the algorithm by its exact lower-case name.
    pub fn from_lowercase(name: &str) -> (r: Result<TextSignFormat, TextError>)
        ensures
            match r {
                Ok(format) => Self::named(name@) == Some(format),
                Err(e) => Self::named(name@) is None && e is UnsupportedFormat
                    && e->UnsupportedFormat_0@ == name@,
            },
    {
        let given = String::from_str(name);
        if given == String::from_str("blake3") {
            Ok(TextSignFormat::Blake3)
        } else if given == String::from_str("ed25519") {
            Ok(TextSignFormat::Ed25519)
        } else {
            Err(TextError::UnsupportedFormat(given))
        }
    }
}

/// Selects the algorithm by name, whatever the case of its letters. A name
/// that is not supported comes back in the error, in lower case.
pub fn parse_format(format: &str) -> (r: Result<TextSignFormat, TextError>)
    ensures
        match r {
            Ok(f) => TextSignFormat::named(lowercase(format@)) == Some(f),
            Err(e) => TextSignFormat::named(lowercase(format@)) is None && e is UnsupportedFormat
                && e->UnsupportedFormat_0@ == lowercase(format@),
        },
        is_ascii_chars(format@) ==> match TextSignFormat::named(ascii_lowercase(format@)) {
            Some(f) => r == Ok::<TextSignFormat, TextError>(f),
            None => r is Err && r->Err_0 is UnsupportedFormat && r->Err_0->UnsupportedFormat_0@
                == ascii_lowercase(format@),
        },
{
    let lowered = to_lowercase(format);
    TextSignFormat::from_lowercase(lowered.as_str())
}

impl From<TextSignFormat> for &'static str {
    fn from(format: TextSignFormat) -> (name: &'static str) {
        match format {
            TextSignFormat::Blake3 => "blake3",
            TextSignFormat::Ed25519 => "ed25519",
        }
    }
}

impl vstd::std_specs::convert::FromSpecImpl<TextSignFormat> for &'static str {
    open spec fn obeys_from_spec() -> bool {
        true
    }

    open spec fn from_spec(format: TextSignFormat) -> &'static str {
        match format {
            TextSignFormat::Blake3 => "blake3",
            TextSignFormat::Ed25519 => "ed25519",
        }
    }
}

impl std::str::FromStr for TextSignFormat {
    type Err = TextError;

    fn from_str(s: &str) -> (r: Result<Self, Self::Err>)
        ensures
            match r {
                Ok(f) => TextSignFormat::named(lowercase(s@)) == Some(f),
                Err(e) => TextSignFormat::named(lowercase(s@)) is None && e is UnsupportedFormat
                    && e->UnsupportedFormat_0@ == lowercase(s@),
            },
            is_ascii_chars(s@) ==> match TextSignFormat::named(ascii_lowercase(s@)) {
                Some(f) => r == Ok::<TextSignFormat, TextError>(f),
                None => r is Err && r->Err_0 is UnsupportedFormat
                    && r->Err_0->UnsupportedFormat_0@ == ascii_lowercase(s@),
            },
    {
        parse_format(s)
    }
}

/// Each algorithm is selected by its own name, which is ASCII and in lower
/// case already.
pub proof fn lemma_name_selects(format: TextSignFormat)
    ensures
        TextSignFormat::named(format.name_spec()) == Some(format),
        is_ascii_chars(format.name_spec()),
        ascii_lowercase(format.name_spec()) == format.name_spec(),
{
    reveal_strlit("blake3");
    reveal_strlit("ed25519");
    assert("blake3"@.len() != "ed25519"@.len());
    assert(ascii_lowercase("blake3"@) =~= "blake3"@);
    assert(ascii_lowercase("ed25519"@) =~= "ed25519"@);
}

} // verus!
