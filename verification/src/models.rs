//! Profile and tag shapes, and the response shaping for profiles.

use vstd::prelude::*;

use crate::user::UserEntity;

verus! {

/// The profile shape responses carry.
#[derive(Debug)]
pub struct ProfileResponse {
    pub username: String,
    pub bio: Option<String>,
    pub image: Option<String>,
    pub following: bool,
}

/// The response wrapper for the tag listing.
#[derive(Debug)]
pub struct TagsWrapper {
    pub tags: Vec<String>,
}

/// A row of the tag relation: a tag name attached to an article by a user.
#[derive(Clone, Debug)]
pub struct TagEntity {
    pub id: i64,
    pub name: String,
    pub article_id: i64,
    pub user_id: i64,
}

/// Shapes a user row as a profile, with the viewer's follow state.
pub fn to_profile_response(user: UserEntity, following: bool) -> (r: ProfileResponse)
    ensures
        r == (ProfileResponse { username: user.username, bio: user.bio, image: user.image, following }),
{
    ProfileResponse { username: user.username, bio: user.bio, image: user.image, following }
}

} // verus!
