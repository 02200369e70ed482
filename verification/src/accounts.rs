//! The account flows' decisions: shaping the response of a registration
//! or login, and deciding a login against the stored password hash.

use vstd::prelude::*;

use crate::token::{issue, token_of, SigningConfig, SESSION_TTL_SECONDS};
use crate::user::{is_user_response, to_user_response, UserEntity, UserResponse};
use crate::utils::{bcrypt_matches, verify_password};
use crate::ServiceError;

verus! {

/// Builds the account response for a fresh registration or login: the
/// user's public fields and a token for the user's id that expires
/// `SESSION_TTL_SECONDS` after `now`.
pub fn account_response(user: UserEntity, config: &SigningConfig, now: u64) -> (r: UserResponse)
    requires
        now + SESSION_TTL_SECONDS <= u64::MAX,
    ensures
        is_user_response(
            r,
            user,
            token_of(config.secret@, user.id, (now + SESSION_TTL_SECONDS) as u64),
        ),
{
    let token = issue(config, user.id, now, SESSION_TTL_SECONDS);
    to_user_response(user, token)
}

/// Decides a login: the given password must match the user row's stored
/// bcrypt hash. On a match, the account response with a fresh token; on a
/// mismatch, the login route's unauthorized message.
pub fn login_response(user: UserEntity, password: String, config: &SigningConfig, now: u64) -> (r: Result<
    UserResponse,
    ServiceError,
>)
    requires
        now + SESSION_TTL_SECONDS <= u64::MAX,
    ensures
        r is Ok <==> bcrypt_matches(password@, user.password@),
        r matches Ok(resp) ==> is_user_response(
            resp,
            user,
            token_of(config.secret@, user.id, (now + SESSION_TTL_SECONDS) as u64),
        ),
        r matches Err(e) ==> e.errors.body@.len() == 1 && e.errors.body@[0]@
            == "invalid email or password"@,
{
    if verify_password(password, user.password.as_str()) {
        Ok(account_response(user, config, now))
    } else {
        Err(ServiceError::new("invalid email or password".to_owned()))
    }
}

} // verus!
