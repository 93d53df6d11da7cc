use vstd::prelude::*;
use vstd::string::StringExecFns;

verus! {

/// Why a signing, verification or key-loading request could not be carried out.
///
/// A signature that does not match is not among these: verification then
/// succeeds with `false`.
#[derive(Debug, PartialEq, Eq)]
pub enum TextError {
    /// The algorithm name, given here in lower case, is not a supported one.
    UnsupportedFormat(String),
    /// The signature handed to verification is too short for the algorithm.
    SignatureLength,
    /// The key material is shorter than 32 bytes or does not encode a key.
    KeyFormat,
    /// The signature text is not URL-safe base64 without padding.
    Decode,
}

impl TextError {
    /// The text of the message for this error.
    pub open spec fn message_spec(&self) -> Seq<char> {
        match self {
            TextError::UnsupportedFormat(name) => "Unsupported format: "@ + name@,
            TextError::SignatureLength => "Signature is shorter than the algorithm requires"@,
            TextError::KeyFormat => "Key material is shorter than 32 bytes or not a valid key"@,
            TextError::Decode => "Signature is not valid URL-safe base64"@,
        }
    }

    /// Whether the request itself was at fault: an unknown algorithm or a
    /// signature of impossible length, as opposed to bad key or signature
    /// contents.
    pub fn is_configuration(&self) -> (r: bool)
        ensures
            r == (self is UnsupportedFormat || self is SignatureLength),
    {
        match self {
            TextError::UnsupportedFormat(_) => true,
            TextError::SignatureLength => true,
            TextError::KeyFormat => false,
            TextError::Decode => false,
        }
    }

    /// A message for the user.
    pub fn message(&self) -> (text: String)
        ensures
            text@ == self.message_spec(),
    {
        match self {
            TextError::UnsupportedFormat(name) => String::from_str("Unsupported format: ").concat(
                name.as_str(),
            ),
            TextError::SignatureLength => String::from_str(
                "Signature is shorter than the algorithm requires",
            ),
            TextError::KeyFormat => String::from_str(
                "Key material is shorter than 32 bytes or not a valid key",
            ),
            TextError::Decode => String::from_str("Signature is not valid URL-safe base64"),
        }
    }
}

} // verus!
