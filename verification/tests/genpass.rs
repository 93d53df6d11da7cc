use rcli::genpass::{
    checked_password_strength, is_estimable, password_strength, process_genpass, GenPassOpt,
    StrengthError, MAX_STRENGTH,
};

const UPPER: &str = "ABCDEFGHJKLMNPQRSTUVWXYZ";
const LOWER: &str = "abcdefghijkmnpqrstuvwxyz";
const NUMBER: &str = "0123456789";
const SYMBOL: &str = "!@#$%^&*()_";

fn opts(uppercase: bool, lowercase: bool, number: bool, symbol: bool, length: u8) -> GenPassOpt {
    GenPassOpt { uppercase, lowercase, number, symbol, length }
}

#[test]
fn genpass_has_every_class() {
    for _ in 0..50 {
        let password = process_genpass(opts(true, true, true, true, 16));
        assert_eq!(password.len(), 16);
        assert!(password.chars().any(|c| UPPER.contains(c)));
        assert!(password.chars().any(|c| LOWER.contains(c)));
        assert!(password.chars().any(|c| NUMBER.contains(c)));
        assert!(password.chars().any(|c| SYMBOL.contains(c)));
        assert!(password
            .chars()
            .all(|c| UPPER.contains(c) || LOWER.contains(c) || NUMBER.contains(c) || SYMBOL.contains(c)));
    }
}

#[test]
fn genpass_keeps_to_the_classes_asked_for() {
    for _ in 0..50 {
        let password = process_genpass(opts(false, false, true, false, 8));
        assert_eq!(password.len(), 8);
        assert!(password.chars().all(|c| NUMBER.contains(c)));
        let password = process_genpass(opts(true, false, false, true, 2));
        assert_eq!(password.len(), 2);
        assert!(password.chars().any(|c| UPPER.contains(c)));
        assert!(password.chars().any(|c| SYMBOL.contains(c)));
    }
}

#[test]
fn genpass_edge_lengths() {
    assert_eq!(process_genpass(opts(false, false, false, false, 0)), "");
    assert_eq!(process_genpass(opts(true, true, true, true, 4)).len(), 4);
    assert_eq!(process_genpass(opts(true, true, true, true, 255)).len(), 255);
    assert_eq!(process_genpass(opts(false, true, false, false, 1)).len(), 1);
}

#[test]
fn genpass_satisfiable_options() {
    assert!(opts(true, true, true, true, 4).is_satisfiable());
    assert!(!opts(true, true, true, true, 3).is_satisfiable());
    assert!(!opts(false, false, false, false, 1).is_satisfiable());
    assert!(opts(false, false, false, false, 0).is_satisfiable());
    assert!(opts(true, false, false, false, 1).is_satisfiable());
}

#[test]
fn genpass_is_random() {
    let a = process_genpass(opts(true, true, true, true, 32));
    let b = process_genpass(opts(true, true, true, true, 32));
    assert_ne!(a, b);
}

#[test]
fn genpass_is_shuffled() {
    // Were the password left in the order it was drawn in, an upper-case
    // letter would always come first.
    let mut first_is_upper = 0;
    for _ in 0..200 {
        let password = process_genpass(opts(true, true, true, true, 4));
        if UPPER.contains(password.chars().next().unwrap()) {
            first_is_upper += 1;
        }
    }
    assert!(first_is_upper < 200);
    assert!(first_is_upper > 0);
}

#[test]
fn password_strength_scores() {
    assert_eq!(password_strength(""), Err(StrengthError::Blank));
    assert_eq!(password_strength("password"), Ok(0));
    assert_eq!(password_strength("12345678901234567890"), Ok(0));
    let strong = process_genpass(opts(true, true, true, true, 20));
    assert_eq!(password_strength(&strong), Ok(MAX_STRENGTH));
    assert_ne!(password_strength("abc").map(|s| s as usize), Ok("abc".len()));
    assert_eq!(password_strength(" "), Ok(0));
}

#[test]
fn password_strength_at_the_limit() {
    // twenty characters that turn at every key, and twenty for twenty patterns
    for password in ["qwqwqwqwqwqwqwqwqwqw", "a1!b2@c3#d4$e5%f6^g7", "éééééééééééééééééééé"] {
        assert!(is_estimable(password));
        let score = password_strength(password).unwrap();
        assert!(score <= MAX_STRENGTH);
        assert_eq!(checked_password_strength(password), Some(Ok(score)));
    }
}

#[test]
fn checked_password_strength_declines_long_passwords() {
    assert_eq!(checked_password_strength(""), Some(Err(StrengthError::Blank)));
    assert_eq!(checked_password_strength("password"), Some(Ok(0)));
    let long = "qw".repeat(16) + "q";
    assert_eq!(long.chars().count(), 33);
    assert!(!is_estimable(&long));
    assert_eq!(checked_password_strength(&long), None);
    assert_eq!(checked_password_strength("123456789012345678901"), None);
    assert!(is_estimable("12345678901234567890"));
    assert!(is_estimable(""));
}

#[test]
fn strength_error_messages() {
    assert_eq!(StrengthError::Blank.message(), "Zxcvbn cannot evaluate a blank password");
    assert_eq!(
        StrengthError::Clock.message(),
        "Zxcvbn calculation time created a duration out of range"
    );
    assert_eq!(
        StrengthError::Blank.message(),
        zxcvbn::ZxcvbnError::BlankPassword.to_string()
    );
    assert_eq!(
        StrengthError::Clock.message(),
        zxcvbn::ZxcvbnError::DurationOutOfRange.to_string()
    );
}
