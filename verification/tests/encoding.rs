use rcli::encoding::{decode_signature, encode_signature};
use rcli::error::TextError;

#[test]
fn encode_known_values() {
    assert_eq!(encode_signature(b""), "");
    assert_eq!(encode_signature(b"f"), "Zg");
    assert_eq!(encode_signature(b"fo"), "Zm8");
    assert_eq!(encode_signature(b"foo"), "Zm9v");
    assert_eq!(encode_signature(b"foob"), "Zm9vYg");
    assert_eq!(encode_signature(b"fooba"), "Zm9vYmE");
    assert_eq!(encode_signature(b"foobar"), "Zm9vYmFy");
    assert_eq!(encode_signature(&[0xfb, 0xff]), "-_8");
    assert_eq!(encode_signature(&[0xff]), "_w");
    let bytes: Vec<u8> = (0u8..32).collect();
    assert_eq!(
        encode_signature(&bytes),
        "AAECAwQFBgcICQoLDA0ODxAREhMUFRYXGBkaGxwdHh8"
    );
}

#[test]
fn decode_known_values() {
    assert_eq!(decode_signature(""), Ok(vec![]));
    assert_eq!(decode_signature("Zg"), Ok(b"f".to_vec()));
    assert_eq!(decode_signature("Zm9vYmE"), Ok(b"fooba".to_vec()));
    assert_eq!(decode_signature("-_8"), Ok(vec![0xfb, 0xff]));
}

#[test]
fn decode_refuses_what_encode_never_writes() {
    // padding, the standard alphabet, stray low bits, an impossible length, foreign characters
    for text in ["Zg==", "Zm8=", "+/8", "Zh", "Zm9", "Z", "Zm9vY", "Zm 9v", "Zm9v\n", "Zm9vé"] {
        assert_eq!(decode_signature(text), Err(TextError::Decode), "{}", text);
    }
}

#[test]
fn decode_inverts_encode() {
    for len in [0usize, 1, 2, 3, 31, 32, 33, 64, 65, 100] {
        let sig: Vec<u8> = (0..len).map(|i| (i * 37 + len * 11) as u8).collect();
        let text = encode_signature(&sig);
        assert_eq!(text.len(), (len * 4 + 2) / 3);
        assert_eq!(decode_signature(&text), Ok(sig));
    }
}
