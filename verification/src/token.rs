//! Token codec: a compact signed claim set (subject identity and expiry)
//! under a symmetric secret.
//!
//! Signing and signature checking are delegated to `jsonwebtoken` (HS256,
//! default header); everything decided here — expiry against a caller-supplied
//! clock, the shape of the outcome — is verified.

use vstd::prelude::*;

verus! {

/// The decoded payload of a signed token: subject user id and expiry as
/// seconds since the Unix epoch.
#[derive(Clone, Copy, Debug, PartialEq, Eq, Structural)]
pub struct Claims {
    pub sub: i64,
    pub exp: u64,
}

/// Why a token was rejected. The distinction is internal diagnostics only;
/// at the boundary all three collapse into one "unauthorized" condition.
#[derive(Clone, Copy, Debug, PartialEq, Eq, Structural)]
pub enum TokenError {
    InvalidSignature,
    Expired,
    Malformed,
}

/// The ttl, in seconds, of every session token the reference flow issues.
pub const SESSION_TTL_SECONDS: u64 = 7200;

/// The process-wide signing configuration: one symmetric secret, fixed for
/// the process lifetime and injected at startup. Deployments supply it from
/// the environment; it is never a literal of this library.
pub struct SigningConfig {
    pub secret: Vec<u8>,
}

/// The token that signing the claim set `(sub, exp)` under `secret` yields.
/// Deterministic: HS256 over a fixed serialization of the two claims.
pub uninterp spec fn token_of(secret: Seq<u8>, sub: i64, exp: u64) -> Seq<char>;

/// What decoding `token` under `secret` (signature check only, no expiry
/// check) yields: the `(sub, exp)` claims on success, `None` otherwise.
/// Deterministic in `secret` and `token`.
pub uninterp spec fn decoded_claims_of(secret: Seq<u8>, token: Seq<char>) -> Option<(i64, u64)>;

/// Relies on `jsonwebtoken::encode` with `Header::default()` (HS256) and a
/// symmetric secret. The token depends on the secret and the claims alone,
/// and `jsonwebtoken::decode` under the same secret yields the claims back.
/// Signing a two-field JSON object with an HMAC secret does not fail.
#[verifier::external_body]
fn encode_token(secret: &[u8], sub: i64, exp: u64) -> (t: String)
    ensures
        t@ == token_of(secret@, sub, exp),
        decoded_claims_of(secret@, t@) == Some((sub, exp)),
{
    let mut claims = serde_json::Map::new();
    claims.insert("sub".to_string(), serde_json::Value::from(sub));
    claims.insert("exp".to_string(), serde_json::Value::from(exp));
    jsonwebtoken::encode(
        &jsonwebtoken::Header::default(),
        &serde_json::Value::Object(claims),
        &jsonwebtoken::EncodingKey::from_secret(secret),
    )
    .expect("HMAC signing of a plain JSON object does not fail")
}

/// Relies on `jsonwebtoken::decode`: under a fixed validation (HS256 only,
/// expiry check disabled) its outcome depends on the secret and the token
/// alone. `Ok` carries the numeric `sub` and `exp` claims; a mismatched
/// signature is told apart from a token that does not parse as a claim set.
#[verifier::external_body]
fn decode_token(secret: &[u8], token: &str) -> (r: Result<(i64, u64), TokenError>)
    ensures
        r is Ok <==> decoded_claims_of(secret@, token@) is Some,
        r is Ok ==> Some(r->Ok_0) == decoded_claims_of(secret@, token@),
        r is Err ==> r->Err_0 == TokenError::InvalidSignature || r->Err_0
            == TokenError::Malformed,
{
    let mut validation = jsonwebtoken::Validation::default();
    validation.validate_exp = false;
    validation.required_spec_claims = std::collections::HashSet::new();
    let key = jsonwebtoken::DecodingKey::from_secret(secret);
    let data = jsonwebtoken::decode::<serde_json::Value>(token, &key, &validation).map_err(|e|
        match e.kind() {
            jsonwebtoken::errors::ErrorKind::InvalidSignature => TokenError::InvalidSignature,
            _ => TokenError::Malformed,
        })?;
    match (data.claims.get("sub").and_then(|v| v.as_i64()), data.claims.get("exp").and_then(|v| v.as_u64())) {
        (Some(s), Some(e)) => Ok((s, e)),
        _ => Err(TokenError::Malformed),
    }
}

/// The claim set `verify` accepts for `token` under `secret` at time `now`,
/// or `None` where it rejects: the token must decode under the secret and
/// its expiry must lie strictly after `now`.
pub open spec fn verify_spec(secret: Seq<u8>, token: Seq<char>, now: u64) -> Option<Claims> {
    match decoded_claims_of(secret, token) {
        Some((sub, exp)) => if exp > now {
            Some(Claims { sub, exp })
        } else {
            None
        },
        None => None,
    }
}

/// Issues a token for subject `sub` that expires `ttl` seconds after `now`.
///
/// Until the expiry, `verify` under the same secret accepts the token and
/// returns the original subject; from the expiry on it rejects it.
pub fn issue(config: &SigningConfig, sub: i64, now: u64, ttl: u64) -> (t: String)
    requires
        now + ttl <= u64::MAX,
    ensures
        t@ == token_of(config.secret@, sub, (now + ttl) as u64),
        decoded_claims_of(config.secret@, t@) == Some((sub, (now + ttl) as u64)),
        forall|at: u64|
            at < now + ttl ==> verify_spec(config.secret@, t@, at) == Some(
                Claims { sub, exp: (now + ttl) as u64 },
            ),
        forall|at: u64| at >= now + ttl ==> verify_spec(config.secret@, t@, at) is None,
{
    encode_token(config.secret.as_slice(), sub, now + ttl)
}

/// Checks a token: the signature must verify under `secret` and the expiry
/// must lie strictly after `now`. A token whose `exp` is at or before `now`
/// is rejected as `Expired` whatever its signature would have said had it
/// also been checked later; a token that does not decode is rejected as
/// `InvalidSignature` or `Malformed`.
pub fn verify(config: &SigningConfig, token: &str, now: u64) -> (r: Result<Claims, TokenError>)
    ensures
        r is Ok <==> verify_spec(config.secret@, token@, now) is Some,
        r is Ok ==> Some(r->Ok_0) == verify_spec(config.secret@, token@, now),
        decoded_claims_of(config.secret@, token@) matches Some(c) && c.1 <= now ==> r == Err::<
            Claims,
            TokenError,
        >(TokenError::Expired),
        decoded_claims_of(config.secret@, token@) is None ==> (r matches Err(e) && (e
            == TokenError::InvalidSignature || e == TokenError::Malformed)),
{
    match decode_token(config.secret.as_slice(), token) {
        Ok((sub, exp)) => {
            if exp > now {
                Ok(Claims { sub, exp })
            } else {
                Err(TokenError::Expired)
            }
        },
        Err(e) => Err(e),
    }
}

} // verus!
