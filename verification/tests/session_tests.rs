use realworld_rust_actix_web::session::{AuthError, SessionState};
use realworld_rust_actix_web::token::{issue, SigningConfig, SESSION_TTL_SECONDS};

fn secret() -> SigningConfig {
    SigningConfig { secret: b"realworld".to_vec() }
}

#[test]
fn missing_header_is_rejected() {
    let r = SessionState::from_header(None, &secret(), 1_700_000_000);
    assert!(matches!(r, Err(AuthError::MissingHeader)));
}

#[test]
fn header_without_scheme_marker_is_typed_failure_not_crash() {
    for value in ["Bearer abc", "", "abc", "token abc", "TOKE", "Toke nabc"] {
        let r = SessionState::from_header(Some(value), &secret(), 1_700_000_000);
        assert!(matches!(r, Err(AuthError::MalformedHeader)), "value {:?}", value);
    }
}

#[test]
fn valid_header_yields_session_with_subject_and_token() {
    let now: u64 = 1_700_000_000;
    let token = issue(&secret(), 42, now, SESSION_TTL_SECONDS);
    let header = format!("Token {}", token);
    let session = SessionState::from_header(Some(&header), &secret(), now + 1)
        .expect("valid header resolves");
    assert_eq!(session.user_id, 42);
    assert_eq!(session.token, token);
}

#[test]
fn surrounding_whitespace_is_trimmed_from_token() {
    let now: u64 = 1_700_000_000;
    let token = issue(&secret(), 9, now, 60);
    let header = format!("Token \t {} \t", token);
    let session = SessionState::from_header(Some(&header), &secret(), now).expect("trimmed token");
    assert_eq!(session.token, token);
    assert_eq!(session.user_id, 9);
}

#[test]
fn token_that_does_not_verify_is_invalid_token() {
    let r = SessionState::from_header(Some("Token garbage"), &secret(), 1_700_000_000);
    assert!(matches!(r, Err(AuthError::InvalidToken)));
}

#[test]
fn expired_token_in_header_is_invalid_token() {
    let now: u64 = 1_700_000_000;
    let token = issue(&secret(), 42, now, 60);
    let header = format!("Token {}", token);
    let r = SessionState::from_header(Some(&header), &secret(), now + 61);
    assert!(matches!(r, Err(AuthError::InvalidToken)));
}

#[test]
fn second_marker_cuts_the_token_segment() {
    // The token is what stands between the first marker and the next one.
    let r = SessionState::from_header(Some("Token abcToken def"), &secret(), 1_700_000_000);
    assert!(matches!(r, Err(AuthError::InvalidToken)));
}

#[test]
fn auth_errors_map_to_generic_unauthorized_messages() {
    let e = AuthError::MissingHeader.to_service_error();
    assert_eq!(e.errors.body, vec!["invalid authorization header!".to_string()]);
    let e = AuthError::MalformedHeader.to_service_error();
    assert_eq!(e.errors.body, vec!["invalid authorization header!".to_string()]);
    let e = AuthError::InvalidToken.to_service_error();
    assert_eq!(e.errors.body, vec!["invalid token!".to_string()]);
}
