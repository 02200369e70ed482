use realworld_rust_actix_web::token::{issue, verify, SigningConfig, TokenError, SESSION_TTL_SECONDS};

fn secret() -> SigningConfig {
    SigningConfig { secret: b"realworld".to_vec() }
}
fn other_secret() -> SigningConfig {
    SigningConfig { secret: b"otherworld".to_vec() }
}

#[test]
fn issue_then_verify_returns_subject() {
    let now: u64 = 1_700_000_000;
    let token = issue(&secret(), 42, now, SESSION_TTL_SECONDS);
    let claims = verify(&secret(), &token, now + 1).expect("fresh token verifies");
    assert_eq!(claims.sub, 42);
    assert_eq!(claims.exp, now + SESSION_TTL_SECONDS);
}

#[test]
fn verify_succeeds_until_just_before_expiry() {
    let now: u64 = 1_700_000_000;
    let token = issue(&secret(), 7, now, 60);
    let claims = verify(&secret(), &token, now + 59).expect("not yet expired");
    assert_eq!(claims.sub, 7);
}

#[test]
fn expired_token_fails_even_with_valid_signature() {
    let now: u64 = 1_700_000_000;
    let token = issue(&secret(), 42, now, 60);
    // The signature is valid; only the expiry has passed.
    let r = verify(&secret(), &token, now + 60);
    assert!(matches!(r, Err(TokenError::Expired)));
    let r = verify(&secret(), &token, now + 3600);
    assert!(matches!(r, Err(TokenError::Expired)));
}

#[test]
fn token_signed_with_different_key_fails() {
    let now: u64 = 1_700_000_000;
    let token = issue(&other_secret(), 42, now, 3600);
    let r = verify(&secret(), &token, now + 1);
    assert!(matches!(r, Err(TokenError::InvalidSignature)));
}

#[test]
fn unparsable_token_fails_as_malformed() {
    let r = verify(&secret(), "definitely-not-a-jwt", 1_700_000_000);
    assert!(matches!(r, Err(TokenError::InvalidSignature) | Err(TokenError::Malformed)));
    let r = verify(&secret(), "", 1_700_000_000);
    assert!(r.is_err());
}

#[test]
fn scenario_two_hour_ttl_then_forced_past_expiry() {
    let now: u64 = 1_700_000_000;
    // Issue for user id 42 with the fixed two-hour ttl.
    let token = issue(&secret(), 42, now, SESSION_TTL_SECONDS);
    // One second later the subject comes back.
    let claims = verify(&secret(), &token, now + 1).expect("verifies one second later");
    assert_eq!(claims.sub, 42);
    // With the clock moved past the expiry, verification fails as expired.
    let r = verify(&secret(), &token, now + SESSION_TTL_SECONDS + 1);
    assert!(matches!(r, Err(TokenError::Expired)));
}
