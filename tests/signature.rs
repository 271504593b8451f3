use ci_relay::signature::{digest_matches, signature_digest, verify_secret, SignatureError};

const HELLO_SIG: &str = "6b23653f08c72072554e5dfef9b72efe01fcfe724a950689e991e7bd7089eb3e";

fn secret() -> Option<Vec<u8>> {
    Some(b"s3cr3t".to_vec())
}

#[test]
fn correct_signature_verifies() {
    let header = format!("sha256={}", HELLO_SIG);
    assert_eq!(verify_secret(b"hello", &secret(), Some(&header)), Ok(true));
}

#[test]
fn flipped_digit_does_not_verify() {
    for i in 0..HELLO_SIG.len() {
        let mut digits: Vec<char> = HELLO_SIG.chars().collect();
        digits[i] = if digits[i] == '0' { '1' } else { '0' };
        let flipped: String = digits.into_iter().collect();
        let header = format!("sha256={}", flipped);
        assert_eq!(verify_secret(b"hello", &secret(), Some(&header)), Ok(false));
    }
}

#[test]
fn missing_header_with_secret_is_false() {
    assert_eq!(verify_secret(b"hello", &secret(), None), Ok(false));
}

#[test]
fn no_secret_no_header_is_true() {
    assert_eq!(verify_secret(b"hello", &None, None), Ok(true));
}

#[test]
fn no_secret_ignores_bad_header() {
    assert_eq!(verify_secret(b"hello", &None, Some("garbage")), Ok(true));
}

#[test]
fn malformed_header_is_an_error() {
    assert_eq!(
        verify_secret(b"hello", &secret(), Some("sha1=abcdef")),
        Err(SignatureError::MalformedHeader)
    );
    assert_eq!(
        verify_secret(b"hello", &secret(), Some("sha256=")),
        Err(SignatureError::MalformedHeader)
    );
    assert_eq!(verify_secret(b"hello", &secret(), Some("")), Err(SignatureError::MalformedHeader));
}

#[test]
fn uppercase_digest_does_not_match() {
    let header = format!("sha256={}", HELLO_SIG.to_uppercase());
    assert_eq!(verify_secret(b"hello", &secret(), Some(&header)), Ok(false));
}

#[test]
fn other_body_does_not_verify() {
    let header = format!("sha256={}", HELLO_SIG);
    assert_eq!(verify_secret(b"hellp", &secret(), Some(&header)), Ok(false));
}

#[test]
fn empty_key_and_body() {
    let header = "sha256=b613679a0814d9ec772f95d778c35fc5ff1697c493715653c6c712144292c5ad";
    assert_eq!(verify_secret(b"", &Some(Vec::new()), Some(header)), Ok(true));
}

#[test]
fn digest_is_first_tagged_hex_run() {
    assert_eq!(signature_digest("sha256=abc12"), Some("abc12".to_string()));
    assert_eq!(signature_digest("x sha256=zz sha256=AbC9-rest"), Some("AbC9".to_string()));
    assert_eq!(signature_digest("sha256=dead beef"), Some("dead".to_string()));
    assert_eq!(signature_digest("sha256=g"), None);
    assert_eq!(signature_digest("sha25"), None);
}

#[test]
fn digest_matches_lowercase_hex() {
    assert!(digest_matches(&[0xab, 0x01, 0xf0], "ab01f0"));
    assert!(!digest_matches(&[0xab, 0x01, 0xf0], "AB01F0"));
    assert!(!digest_matches(&[0xab, 0x01, 0xf0], "ab01f"));
    assert!(digest_matches(&[], ""));
}
