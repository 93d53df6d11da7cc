use rcli::cli::{
    input_source, verify_file, verify_path, GenPassOpts, InputSource, TextKeyGenerateOpts,
    TextSignOpts, TextVerifyOpts,
};
use rcli::error::TextError;
use rcli::format::TextSignFormat;
use rcli::jwt::Claims;

#[test]
fn test_verify_input_file() {
    assert_eq!(verify_file("-", false), Ok("-".to_string()));
    assert_eq!(verify_file("*", false), Err("File does not exist"));
    assert_eq!(verify_file("Cargo.toml", true), Ok("Cargo.toml".to_string()));
    assert_eq!(verify_file("not-exist", false), Err("File does not exist"));
}

#[test]
fn input_source_tells_stdin_from_files() {
    assert_eq!(input_source("-"), InputSource::Stdin);
    assert_eq!(input_source("--"), InputSource::File("--".to_string()));
    assert_eq!(input_source(""), InputSource::File("".to_string()));
    assert_eq!(input_source("./-"), InputSource::File("./-".to_string()));
    assert_eq!(input_source("Cargo.toml"), InputSource::File("Cargo.toml".to_string()));
}

#[test]
fn verify_path_wants_a_directory() {
    assert_eq!(verify_path("out", true, true), Ok("out".to_string()));
    assert_eq!(
        verify_path("out", true, false),
        Err("Path does not exist or is not a directory")
    );
    assert_eq!(
        verify_path("out", false, false),
        Err("Path does not exist or is not a directory")
    );
}

#[test]
fn genpass_opts_defaults() {
    let opts = GenPassOpts::default();
    assert_eq!(opts.length, 16);
    assert!(opts.uppercase && opts.lowercase && opts.number && opts.symbol);
    assert_eq!(opts.generate().unwrap().len(), 16);
    assert_eq!(opts.options().length, 16);
}

#[test]
fn genpass_opts_refuses_what_cannot_be_met() {
    let opts = GenPassOpts { length: 3, ..GenPassOpts::default() };
    assert_eq!(opts.generate(), None);
    let opts =
        GenPassOpts { length: 5, uppercase: false, lowercase: false, number: false, symbol: false };
    assert_eq!(opts.generate(), None);
}

#[test]
fn text_opts_sign_and_verify() {
    let key = b"0123456789abcdef0123456789abcdef";
    let sign =
        TextSignOpts { input: "-".into(), key: "key.txt".into(), format: TextSignFormat::Blake3 };
    let sig = sign.sign(b"hello world", key).unwrap();
    let verify = TextVerifyOpts {
        input: "-".into(),
        key: "key.txt".into(),
        sig,
        format: TextSignFormat::Blake3,
    };
    assert_eq!(verify.verify(b"hello world", key), Ok(true));
    assert_eq!(verify.verify(b"hello", key), Ok(false));
    assert_eq!(verify.verify(b"hello world", &key[..31]), Err(TextError::KeyFormat));
}

#[test]
fn key_generate_opts_names_the_files() {
    let files =
        TextKeyGenerateOpts { format: TextSignFormat::Blake3, output: ".".into() }.generate();
    assert_eq!(files.len(), 1);
    assert_eq!(files[0].name, "blake3.txt");
    assert_eq!(files[0].contents.len(), 32);
    let files =
        TextKeyGenerateOpts { format: TextSignFormat::Ed25519, output: ".".into() }.generate();
    assert_eq!(files.len(), 2);
    assert_eq!(files[0].name, "ed25519.pk");
    assert_eq!(files[1].name, "ed25519.sk");
    let sig =
        rcli::text::process_text_sign(b"data", &files[1].contents, TextSignFormat::Ed25519)
            .unwrap();
    assert_eq!(
        rcli::text::process_text_verify(b"data", &files[0].contents, TextSignFormat::Ed25519, &sig),
        Ok(true)
    );
}

#[test]
fn claims_expiry() {
    let claims = Claims::new(Some("abc".into()), Some("sub.sasdf".into()), 105, 100);
    assert_eq!(claims.aud.as_deref(), Some("abc"));
    assert_eq!(claims.sub.as_deref(), Some("sub.sasdf"));
    assert_eq!((claims.exp, claims.iat), (105, 100));
    assert!(claims.outlives(100));
    assert!(claims.outlives(104));
    assert!(!claims.outlives(105));
    assert!(!claims.outlives(106));
}
