use hubhook::signature::{authenticate, compare_slice, judge, signature_bytes, AuthError};

const AGENT: &str = "GitHub-Hookshot/044aadd";
const FOX: &[u8] = b"The quick brown fox jumps over the lazy dog";
const FOX_TAG: &str = "sha256=f7bc83f430538424b13298e6aa6fb143ef4d59a14946175997479dbc2d1a3cd8";

#[test]
fn slices_compare_by_content() {
    assert!(compare_slice(&[], &[]));
    assert!(compare_slice(&[1, 2, 3], &[1, 2, 3]));
    assert!(!compare_slice(&[1, 2, 3], &[1, 2, 4]));
    assert!(!compare_slice(&[1, 2, 3], &[1, 2]));
    assert!(!compare_slice(&[], &[0]));
}

#[test]
fn signature_header_carries_bytes() {
    assert_eq!(signature_bytes("sha256=00ff10"), Some(vec![0x00, 0xff, 0x10]));
    assert_eq!(signature_bytes("sha256=AbCdEf"), Some(vec![0xab, 0xcd, 0xef]));
    assert_eq!(signature_bytes("sha256=9a"), Some(vec![0x9a]));
    assert_eq!(signature_bytes("sha256="), Some(vec![]));
    assert_eq!(signature_bytes("sha256=abc"), None);
    assert_eq!(signature_bytes("sha256=zz"), None);
    assert_eq!(signature_bytes("sha256=0g"), None);
    assert_eq!(signature_bytes("sha256=0\u{e9}"), None);
    assert_eq!(signature_bytes("sha1=00ff"), None);
    assert_eq!(signature_bytes("SHA256=00ff"), None);
    assert_eq!(signature_bytes("00ff"), None);
    assert_eq!(signature_bytes(""), None);
}

#[test]
fn request_with_the_right_tag_passes() {
    assert_eq!(authenticate(AGENT, FOX_TAG, b"key", FOX), Ok(()));
    assert_eq!(
        authenticate(
            AGENT,
            "sha256=F6E1890C89BEB6EEE99C8F1195129E64BAD7CF409EC1E5955E0DCF83B64DFCE3",
            b"secret",
            b"{\"zen\":\"ok\"}",
        ),
        Ok(())
    );
    assert_eq!(authenticate("GitHub-Hookshot", FOX_TAG, b"key", FOX), Ok(()));
}

#[test]
fn request_with_a_wrong_tag_never_passes() {
    assert_eq!(authenticate(AGENT, FOX_TAG, b"other key", FOX), Err(AuthError::SignatureMismatch));
    assert_eq!(
        authenticate(AGENT, FOX_TAG, b"key", b"another body"),
        Err(AuthError::SignatureMismatch)
    );
    assert_eq!(authenticate(AGENT, "sha256=00", b"key", FOX), Err(AuthError::SignatureMismatch));
    assert_eq!(authenticate(AGENT, "sha256=", b"key", FOX), Err(AuthError::SignatureMismatch));
    assert_eq!(
        authenticate(
            AGENT,
            "sha256=f7bc83f430538424b13298e6aa6fb143ef4d59a14946175997479dbc2d1a3cd9",
            b"key",
            FOX,
        ),
        Err(AuthError::SignatureMismatch)
    );
}

#[test]
fn user_agent_is_looked_at_first() {
    assert_eq!(authenticate("curl/8.0", FOX_TAG, b"key", FOX), Err(AuthError::UserAgentMismatch));
    assert_eq!(authenticate("curl/8.0", "nonsense", b"key", FOX), Err(AuthError::UserAgentMismatch));
    assert_eq!(authenticate("curl/8.0", "", b"key", FOX), Err(AuthError::UserAgentMismatch));
    assert_eq!(
        authenticate("x GitHub-Hookshot", FOX_TAG, b"key", FOX),
        Err(AuthError::UserAgentMismatch)
    );
    assert_eq!(authenticate("github-hookshot", FOX_TAG, b"key", FOX), Err(AuthError::UserAgentMismatch));
}

#[test]
fn malformed_signature_is_told_apart() {
    assert_eq!(authenticate(AGENT, "f7bc83f4", b"key", FOX), Err(AuthError::MalformedSignature));
    assert_eq!(authenticate(AGENT, "sha256=f7bc83f", b"key", FOX), Err(AuthError::MalformedSignature));
    assert_eq!(authenticate(AGENT, "sha256=xyz", b"key", FOX), Err(AuthError::MalformedSignature));
    assert_eq!(authenticate(AGENT, "", b"key", FOX), Err(AuthError::MalformedSignature));
}

#[test]
fn judging_against_a_given_tag() {
    assert_eq!(judge(AGENT, "sha256=0102", &[1, 2]), Ok(()));
    assert_eq!(judge(AGENT, "sha256=0102", &[1, 3]), Err(AuthError::SignatureMismatch));
    assert_eq!(judge(AGENT, "sha256=0102", &[1, 2, 3]), Err(AuthError::SignatureMismatch));
    assert_eq!(judge(AGENT, "sha256=0102", &[]), Err(AuthError::SignatureMismatch));
    assert_eq!(judge(AGENT, "sha256=012", &[1, 2]), Err(AuthError::MalformedSignature));
    assert_eq!(judge("Mozilla", "sha256=0102", &[1, 2]), Err(AuthError::UserAgentMismatch));
}
