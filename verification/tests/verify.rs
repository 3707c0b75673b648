use deploy::VerifyError;
use deploy::check_signature;
use deploy::constant_time_eq;
use deploy::sign_payload;

#[test]
fn signed_header_verifies() {
    let body = b"{\"ref\": \"refs/heads/master\"}";
    let secret = "a shared secret";
    let header = sign_payload(body, secret);
    assert_eq!(check_signature(body, &header, secret), Ok(true));
}

#[test]
fn known_hmac_sha1_vector() {
    // HMAC-SHA1 test vector: key "Jefe", data "what do ya want for nothing?".
    let body = b"what do ya want for nothing?";
    let header = "sha1=effcdf6ae5eb2fa2d27416d5f184df9c259a7c79";
    assert_eq!(check_signature(body, header, "Jefe"), Ok(true));
    let signed = sign_payload(body, "Jefe");
    assert_eq!(signed, header);
}

#[test]
fn flipped_bit_is_rejected() {
    let secret = "a shared secret";
    let body = b"{\"ref\": \"refs/heads/master\"}".to_vec();
    let header = sign_payload(&body, secret);
    for i in 0..body.len() {
        for bit in 0..8 {
            let mut mutated = body.clone();
            mutated[i] ^= 1 << bit;
            assert_eq!(check_signature(&mutated, &header, secret), Ok(false));
        }
    }
}

#[test]
fn wrong_secret_is_rejected() {
    let body = b"{\"ref\": \"refs/heads/master\"}";
    let header = sign_payload(body, "one secret");
    assert_eq!(check_signature(body, &header, "another secret"), Ok(false));
}

#[test]
fn header_without_equals_is_malformed() {
    let body = b"anything";
    assert_eq!(
        check_signature(body, "sha1", "s"),
        Err(VerifyError::MalformedSignature)
    );
    assert_eq!(
        check_signature(body, "", "s"),
        Err(VerifyError::MalformedSignature)
    );
}

#[test]
fn non_sha1_method_is_unsupported() {
    let body = b"anything";
    assert_eq!(
        check_signature(body, "md5=00ff", "s"),
        Err(VerifyError::UnsupportedAlgorithm)
    );
    assert_eq!(
        check_signature(body, "sha256=00ff", "s"),
        Err(VerifyError::UnsupportedAlgorithm)
    );
    assert_eq!(
        check_signature(body, "=00ff", "s"),
        Err(VerifyError::UnsupportedAlgorithm)
    );
}

#[test]
fn bad_hex_digest_is_rejected() {
    let body = b"anything";
    assert_eq!(
        check_signature(body, "sha1=xyz", "s"),
        Err(VerifyError::BadDigest)
    );
    assert_eq!(
        check_signature(body, "sha1=abc", "s"),
        Err(VerifyError::BadDigest)
    );
    // A second `=` lands in the digest part and is no hex digit.
    assert_eq!(
        check_signature(body, "sha1=ab=cd", "s"),
        Err(VerifyError::BadDigest)
    );
}

#[test]
fn short_digest_is_a_mismatch_not_an_error() {
    let body = b"anything";
    assert_eq!(check_signature(body, "sha1=abcd", "s"), Ok(false));
    assert_eq!(check_signature(body, "sha1=", "s"), Ok(false));
}

#[test]
fn constant_time_eq_agrees_with_equality() {
    assert!(constant_time_eq(b"", b""));
    assert!(constant_time_eq(b"abc", b"abc"));
    assert!(!constant_time_eq(b"abc", b"abd"));
    assert!(!constant_time_eq(b"abc", b"ab"));
    assert!(!constant_time_eq(b"", b"x"));
}
