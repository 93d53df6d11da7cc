use rcli::error::TextError;
use rcli::format::{parse_format, TextSignFormat};

#[test]
fn parse_format_accepts_any_case() {
    assert_eq!(parse_format("blake3"), Ok(TextSignFormat::Blake3));
    assert_eq!(parse_format("BLAKE3"), Ok(TextSignFormat::Blake3));
    assert_eq!(parse_format("ed25519"), Ok(TextSignFormat::Ed25519));
    assert_eq!(parse_format("Ed25519"), Ok(TextSignFormat::Ed25519));
    assert_eq!("eD25519".parse::<TextSignFormat>(), Ok(TextSignFormat::Ed25519));
}

#[test]
fn parse_format_refuses_other_names() {
    for name in ["", "blake2", "ed25519 ", "sha256", "blake3ed25519"] {
        assert_eq!(
            parse_format(name),
            Err(TextError::UnsupportedFormat(name.to_string()))
        );
    }
    let err = parse_format("ChaCha20").unwrap_err();
    assert_eq!(err.message(), "Unsupported format: chacha20");
}

#[test]
fn from_lowercase_is_exact() {
    assert_eq!(TextSignFormat::from_lowercase("blake3"), Ok(TextSignFormat::Blake3));
    assert_eq!(
        TextSignFormat::from_lowercase("Blake3"),
        Err(TextError::UnsupportedFormat("Blake3".to_string()))
    );
}

#[test]
fn format_names_round_trip() {
    for format in [TextSignFormat::Blake3, TextSignFormat::Ed25519] {
        assert_eq!(parse_format(format.name()), Ok(format));
    }
    let name: &str = TextSignFormat::Ed25519.into();
    assert_eq!(name, "ed25519");
    assert_eq!(TextSignFormat::Blake3.name(), "blake3");
    assert_eq!(TextSignFormat::Ed25519.name(), "ed25519");
}

#[test]
fn from_str_accepts_any_case_and_every_name() {
    assert_eq!("ED25519".parse::<TextSignFormat>(), Ok(TextSignFormat::Ed25519));
    assert_eq!("BLAKE3".parse::<TextSignFormat>(), Ok(TextSignFormat::Blake3));
    for format in [TextSignFormat::Blake3, TextSignFormat::Ed25519] {
        let name: &str = format.into();
        assert_eq!(name, name.to_lowercase());
        assert_eq!(name.parse::<TextSignFormat>(), Ok(format));
    }
    assert_eq!(
        "Blake4".parse::<TextSignFormat>(),
        Err(TextError::UnsupportedFormat("blake4".to_string()))
    );
}

#[test]
fn configuration_errors() {
    assert!(TextError::UnsupportedFormat("x".to_string()).is_configuration());
    assert!(TextError::SignatureLength.is_configuration());
    assert!(!TextError::KeyFormat.is_configuration());
    assert!(!TextError::Decode.is_configuration());
}

#[test]
fn parse_format_lowers_ascii_only_names() {
    assert_eq!(
        parse_format("BLAKE-3_x"),
        Err(TextError::UnsupportedFormat("blake-3_x".to_string()))
    );
    assert_eq!(
        parse_format("ÉD25519"),
        Err(TextError::UnsupportedFormat("éd25519".to_string()))
    );
}

#[test]
fn error_messages() {
    assert!(!TextError::KeyFormat.message().is_empty());
    assert!(!TextError::Decode.message().is_empty());
    assert!(!TextError::SignatureLength.message().is_empty());
}
