use vstd::prelude::*;
use vstd::string::StringExecFns;
use crate::error::TextError;
use crate::format::TextSignFormat;
use crate::genpass::{process_genpass, GenPassOpt};
use crate::key::{key_prefix, KEY_LEN};
use crate::text::{
    artifacts, generated_for, process_text_generate, process_text_sign, process_text_verify,
    raw_signature, signature_len, verdict, verifies_for,
};
use crate::encoding::{base64url, decoded};
use crate::keyed_hash::DIGEST_LEN;

verus! {

/// The designator that stands for standard input.
pub open spec fn stdin_designator() -> Seq<char> {
    "-"@
}

/// Where the data of a request comes from.
#[derive(Debug, PartialEq, Eq)]
pub enum InputSource {
    /// The process's standard input.
    Stdin,
    /// The file at this path.
    File(String),
}

/// Resolves an input designator: `-` is standard input, and anything else
/// is the path of a file, taken as it stands.
pub fn input_source(input: &str) -> (source: InputSource)
    ensures
        input@ == stdin_designator() ==> source is Stdin,
        input@ != stdin_designator() ==> source is File && source->File_0@ == input@,
{
    let path = String::from_str(input);
    if path == String::from_str("-") {
        InputSource::Stdin
    } else {
        InputSource::File(path)
    }
}

/// Accepts an input designator: `-` for standard input, or the path of a
/// file, of which `present` says whether it is there.
pub fn verify_file(filename: &str, present: bool) -> (r: Result<String, &'static str>)
    ensures
        filename@ == stdin_designator() || present ==> r is Ok && r->Ok_0@ == filename@,
        !(filename@ == stdin_designator() || present) ==> r is Err && r->Err_0@
            == "File does not exist"@,
{
    let name = String::from_str(filename);
    if name == String::from_str("-") || present {
        return Ok(name);
    }
    Err("File does not exist")
}

/// Accepts the path of an output directory, of which `present` and `is_dir`
/// say whether it is there and whether it is a directory.
pub fn verify_path(path: &str, present: bool, is_dir: bool) -> (r: Result<String, &'static str>)
    ensures
        present && is_dir ==> r is Ok && r->Ok_0@ == path@,
        !(present && is_dir) ==> r is Err && r->Err_0@
            == "Path does not exist or is not a directory"@,
{
    if !present || !is_dir {
        return Err("Path does not exist or is not a directory");
    }
    Ok(String::from_str(path))
}

/// A request for a random password.
pub struct GenPassOpts {
    pub length: u8,
    pub uppercase: bool,
    pub lowercase: bool,
    pub number: bool,
    pub symbol: bool,
}

impl Default for GenPassOpts {
    /// Sixteen characters, with every character class.
    fn default() -> (r: Self)
        ensures
            r.length == 16,
            r.uppercase && r.lowercase && r.number && r.symbol,
    {
        GenPassOpts { length: 16, uppercase: true, lowercase: true, number: true, symbol: true }
    }
}

impl GenPassOpts {
    /// The options as the generator takes them.
    pub open spec fn options_spec(&self) -> GenPassOpt {
        GenPassOpt {
            uppercase: self.uppercase,
            lowercase: self.lowercase,
            number: self.number,
            symbol: self.symbol,
            length: self.length,
        }
    }

    /// The options as the generator takes them.
    pub fn options(&self) -> (opts: GenPassOpt)
        ensures
            opts == self.options_spec(),
    {
        GenPassOpt {
            uppercase: self.uppercase,
            lowercase: self.lowercase,
            number: self.number,
            symbol: self.symbol,
            length: self.length,
        }
    }

    /// Generates the password asked for, or nothing where no password can
    /// meet the request.
    pub fn generate(&self) -> (password: Option<String>)
        ensures
            self.options_spec().satisfiable() ==> password is Some && self.options_spec().admits(
                password->Some_0@,
            ),
            !self.options_spec().satisfiable() ==> password is None,
    {
        let opts = self.options();
        if opts.is_satisfiable() {
            Some(process_genpass(opts))
        } else {
            None
        }
    }
}

/// A request to sign the data of `input` with the key of the file `key`.
pub struct TextSignOpts {
    /// `-` for standard input, or the path of the data.
    pub input: String,
    /// The path of the key file.
    pub key: String,
    pub format: TextSignFormat,
}

impl TextSignOpts {
    /// Carries the request out on what was read from its input and its key
    /// file: the signature as text.
    pub fn sign(&self, input: &[u8], key: &[u8]) -> (r: Result<String, TextError>)
        ensures
            key@.len() < KEY_LEN ==> r is Err && r->Err_0 == TextError::KeyFormat,
            key@.len() >= KEY_LEN ==> r is Ok && r->Ok_0@ == base64url(
                raw_signature(self.format, key_prefix(key@), input@),
            ),
            key@.len() >= KEY_LEN ==> raw_signature(self.format, key_prefix(key@), input@).len()
                == signature_len(self.format),
            key@.len() >= KEY_LEN ==> forall|verifying: Seq<u8>| #[trigger]
                verifies_for(self.format, verifying, key_prefix(key@)) ==> verdict(
                    self.format,
                    verifying,
                    input@,
                    r->Ok_0@,
                ) == Ok::<bool, TextError>(true),
    {
        process_text_sign(input, key, self.format)
    }
}

/// A request to check the signature `sig` of the data of `input` with the
/// key of the file `key`.
pub struct TextVerifyOpts {
    /// `-` for standard input, or the path of the data.
    pub input: String,
    /// The path of the key file.
    pub key: String,
    /// The signature, as URL-safe base64 without padding.
    pub sig: String,
    pub format: TextSignFormat,
}

impl TextVerifyOpts {
    /// Carries the request out on what was read from its input and its key
    /// file.
    pub fn verify(&self, input: &[u8], key: &[u8]) -> (r: Result<bool, TextError>)
        ensures
            r == verdict(self.format, key@, input@, self.sig@),
            self.format == TextSignFormat::Blake3 && key@.len() >= KEY_LEN && decoded(self.sig@)
                is Some && decoded(self.sig@)->Some_0.len() != DIGEST_LEN ==> r == Ok::<
                bool,
                TextError,
            >(false),
    {
        process_text_verify(input, key, self.format, self.sig.as_str())
    }
}

/// A file that a key-generation request asks to be written.
pub struct KeyFile {
    /// The name of the file within the output directory.
    pub name: &'static str,
    pub contents: Vec<u8>,
}

/// The names of the files that hold the generated artifacts, in the order
/// of the artifacts.
pub open spec fn key_file_names(format: TextSignFormat) -> Seq<Seq<char>> {
    match format {
        TextSignFormat::Blake3 => seq!["blake3.txt"@],
        TextSignFormat::Ed25519 => seq!["ed25519.pk"@, "ed25519.sk"@],
    }
}

/// The names of a list of files, in order.
pub open spec fn file_names(files: Seq<KeyFile>) -> Seq<Seq<char>> {
    Seq::new(files.len(), |i: int| files[i].name@)
}

/// The contents of a list of files, in order.
pub open spec fn file_contents(files: Seq<KeyFile>) -> Seq<Seq<u8>> {
    Seq::new(files.len(), |i: int| files[i].contents@)
}

/// A request for fresh key material, to be written into the directory
/// `output`.
pub struct TextKeyGenerateOpts {
    pub format: TextSignFormat,
    /// The directory that the key files go to.
    pub output: String,
}

impl TextKeyGenerateOpts {
    /// Generates the key material and names the file for each artifact: the
    /// secret for the keyed hash; the public and the private key for Ed25519.
    pub fn generate(&self) -> (files: Vec<KeyFile>)
        ensures
            file_names(files@) == key_file_names(self.format),
            generated_for(self.format, file_contents(files@)),
    {
        let mut keys = process_text_generate(self.format);
        let ghost made = artifacts(keys@);
        let mut files: Vec<KeyFile> = Vec::new();
        match self.format {
            TextSignFormat::Blake3 => {
                let secret = keys.pop().unwrap();
                files.push(KeyFile { name: "blake3.txt", contents: secret });
                assert(file_contents(files@) =~= made);
                assert(file_names(files@) =~= key_file_names(self.format));
            },
            TextSignFormat::Ed25519 => {
                let private = keys.pop().unwrap();
                let public = keys.pop().unwrap();
                files.push(KeyFile { name: "ed25519.pk", contents: public });
                files.push(KeyFile { name: "ed25519.sk", contents: private });
                assert(file_contents(files@) =~= made);
                assert(file_names(files@) =~= key_file_names(self.format));
            },
        }
        files
    }
}

} // verus!
