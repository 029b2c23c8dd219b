use rollout_webhook::{check_signature, verify, AuthError};

const JEFE_TAG: &str = "sha256=5bdcc146bf60754e6a042426089575c75a003f089d2739839dec58b964ec3843";

#[test]
fn check_signature_formats_lowercase_hex() {
    let digest = [0x00u8, 0xff, 0x1a, 0x9b];
    assert_eq!(check_signature(b"sha256=00ff1a9b", &digest), Ok(()));
    assert_eq!(
        check_signature(b"sha256=00FF1A9B", &digest),
        Err(AuthError::InvalidSignature)
    );
    assert_eq!(
        check_signature(b"00ff1a9b", &digest),
        Err(AuthError::InvalidSignature)
    );
}

#[test]
fn check_signature_empty_digest() {
    assert_eq!(check_signature(b"sha256=", &[]), Ok(()));
    assert_eq!(check_signature(b"", &[]), Err(AuthError::InvalidSignature));
}

#[test]
fn verify_accepts_known_hmac_vector() {
    let r = verify(
        Some(b"Jefe"),
        b"what do ya want for nothing?",
        Some(JEFE_TAG.as_bytes()),
    );
    assert_eq!(r, Ok(()));
}

#[test]
fn verify_accepts_documented_webhook_example() {
    let r = verify(
        Some(b"It's a Secret to Everybody"),
        b"Hello, World!",
        Some(b"sha256=757107ea0eb2509fc211221cce984b8a37570b6d7586c22c46f4379c8b043e17"),
    );
    assert_eq!(r, Ok(()));
}

#[test]
fn verify_missing_header_is_missing_credential() {
    assert_eq!(
        verify(Some(b"Jefe"), b"what do ya want for nothing?", None),
        Err(AuthError::MissingCredential)
    );
    assert_eq!(verify(None, b"", None), Err(AuthError::MissingCredential));
}

#[test]
fn verify_missing_secret_is_configuration_error() {
    assert_eq!(
        verify(None, b"what do ya want for nothing?", Some(JEFE_TAG.as_bytes())),
        Err(AuthError::ConfigurationError)
    );
}

#[test]
fn verify_wrong_length_is_invalid() {
    let short = &JEFE_TAG.as_bytes()[..JEFE_TAG.len() - 1];
    assert_eq!(
        verify(Some(b"Jefe"), b"what do ya want for nothing?", Some(short)),
        Err(AuthError::InvalidSignature)
    );
    assert_eq!(
        verify(Some(b"Jefe"), b"what do ya want for nothing?", Some(b"")),
        Err(AuthError::InvalidSignature)
    );
}

#[test]
fn verify_wrong_byte_is_invalid_at_any_position() {
    for pos in [7usize, 30, JEFE_TAG.len() - 1] {
        let mut claimed = JEFE_TAG.as_bytes().to_vec();
        claimed[pos] = if claimed[pos] == b'0' { b'1' } else { b'0' };
        assert_eq!(
            verify(Some(b"Jefe"), b"what do ya want for nothing?", Some(&claimed)),
            Err(AuthError::InvalidSignature)
        );
    }
}

#[test]
fn verify_wrong_secret_is_invalid() {
    assert_eq!(
        verify(Some(b"jefe"), b"what do ya want for nothing?", Some(JEFE_TAG.as_bytes())),
        Err(AuthError::InvalidSignature)
    );
}

#[test]
fn verify_refuses_body_with_appended_whitespace() {
    assert_eq!(
        verify(Some(b"It's a Secret to Everybody"), b"Hello, World!", Some(b"sha256=757107ea0eb2509fc211221cce984b8a37570b6d7586c22c46f4379c8b043e17")),
        Ok(())
    );
    assert_eq!(
        verify(Some(b"It's a Secret to Everybody"), b"Hello, World! ", Some(b"sha256=757107ea0eb2509fc211221cce984b8a37570b6d7586c22c46f4379c8b043e17")),
        Err(AuthError::InvalidSignature)
    );
}

#[test]
fn verify_refuses_reformatted_json() {
    let secret = b"s3cret";
    let body = br#"{"workflow_run":{"name":"continuous-delivery"}}"#;
    let spaced = br#"{ "workflow_run": { "name": "continuous-delivery" } }"#;
    let tag = signed(secret, body);
    assert_eq!(verify(Some(secret), body, Some(&tag)), Ok(()));
    assert_eq!(
        verify(Some(secret), spaced, Some(&tag)),
        Err(AuthError::InvalidSignature)
    );
}

fn signed(secret: &[u8], body: &[u8]) -> Vec<u8> {
    let key = openssl::pkey::PKey::hmac(secret).unwrap();
    let mut signer =
        openssl::sign::Signer::new(openssl::hash::MessageDigest::sha256(), &key).unwrap();
    signer.update(body).unwrap();
    format!("sha256={}", hex::encode(signer.sign_to_vec().unwrap())).into_bytes()
}

#[test]
fn verify_refuses_rfc_vector_with_trailing_space() {
    assert_eq!(
        verify(
            Some(b"Jefe"),
            b"what do ya want for nothing? ",
            Some(JEFE_TAG.as_bytes())
        ),
        Err(AuthError::InvalidSignature)
    );
    assert_ne!(
        signed(b"Jefe", b"what do ya want for nothing? "),
        JEFE_TAG.as_bytes().to_vec()
    );
}
