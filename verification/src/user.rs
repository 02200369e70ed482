//! User records and the response shapes built from them.

use vstd::prelude::*;

verus! {

/// A row of the user relation.
#[derive(Clone, Debug)]
pub struct UserEntity {
    pub id: i64,
    pub username: String,
    pub email: String,
    pub password: String,
    pub image: Option<String>,
    pub bio: Option<String>,
}

/// A login request: credentials only.
#[derive(Debug)]
pub struct UserLogin {
    pub email: String,
    pub password: String,
}

/// A registration request.
#[derive(Debug)]
pub struct UserRegistryForm {
    pub username: String,
    pub email: String,
    pub password: String,
}

/// An update request: only the present fields change.
#[derive(Debug)]
pub struct UserUpdateForm {
    pub username: Option<String>,
    pub email: Option<String>,
    pub password: Option<String>,
    pub bio: Option<String>,
    pub image: Option<String>,
}

/// The user shape responses carry; `token` is set on the account routes
/// and absent where the user stands as an article's or comment's author.
#[derive(Debug)]
pub struct UserResponse {
    pub username: String,
    pub email: String,
    pub token: Option<String>,
    pub bio: Option<String>,
    pub image: Option<String>,
}

/// A row of the follow relation: `follower_user_id` follows
/// `followee_user_id`.
#[derive(Clone, Copy, Debug, PartialEq, Eq, Structural)]
pub struct UserFollowEntity {
    pub follower_user_id: i64,
    pub followee_user_id: i64,
}

/// The author shape for `user`: the public fields, no token.
pub open spec fn author_of(user: UserEntity) -> UserResponse {
    UserResponse {
        username: user.username,
        email: user.email,
        token: None,
        bio: user.bio,
        image: user.image,
    }
}

/// Shapes a user row as the author field of an article or comment.
pub fn to_author(user: UserEntity) -> (r: UserResponse)
    ensures
        r == author_of(user),
{
    UserResponse {
        username: user.username,
        email: user.email,
        token: None,
        bio: user.bio,
        image: user.image,
    }
}

/// Whether `r` is the account response for `user` with token text `tok`:
/// the public fields of the row, the token, and `bio` and `image` unset
/// (the account routes leave them so).
pub open spec fn is_user_response(r: UserResponse, user: UserEntity, tok: Seq<char>) -> bool {
    &&& r.username == user.username
    &&& r.email == user.email
    &&& r.token matches Some(t) && t@ == tok
    &&& r.bio is None
    &&& r.image is None
}

/// Shapes a user row as an account response carrying `token`.
pub fn to_user_response(user: UserEntity, token: String) -> (r: UserResponse)
    ensures
        is_user_response(r, user, token@),
{
    UserResponse {
        username: user.username,
        email: user.email,
        token: Some(token),
        bio: None,
        image: None,
    }
}

} // verus!
