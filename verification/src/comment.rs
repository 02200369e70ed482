//! Comment records and their response shaping.

use vstd::prelude::*;

use crate::timefmt::Timestamp;
use crate::user::{author_of, to_author, UserEntity, UserResponse};

verus! {

/// A row of the comment relation.
#[derive(Clone, Debug)]
pub struct CommentEntity {
    pub id: i64,
    pub body: String,
    pub created_at: Timestamp,
    pub updated_at: Timestamp,
    pub article_id: i64,
    pub user_id: i64,
}

/// A comment-creation request: the body only.
#[derive(Debug)]
pub struct CommentCreateForm {
    pub body: String,
}

/// The response wrapper for a comment listing.
#[derive(Debug)]
pub struct CommentsWrapper<T> {
    pub comments: Vec<T>,
}

/// The comment shape responses carry.
#[derive(Debug)]
pub struct CommentResponse {
    pub id: i64,
    pub body: String,
    pub created_at: String,
    pub updated_at: String,
    pub author: UserResponse,
}

/// Shapes a comment row and its author's user row as a response: the body
/// as stored, both timestamps rendered, and the author's public fields.
pub fn to_comment_response(comment: CommentEntity, user: UserEntity) -> (r: CommentResponse)
    ensures
        r.id == comment.id,
        r.body == comment.body,
        r.created_at@ == comment.created_at.spec_format(),
        r.updated_at@ == comment.updated_at.spec_format(),
        r.author == author_of(user),
{
    CommentResponse {
        id: comment.id,
        body: comment.body,
        created_at: comment.created_at.format(),
        updated_at: comment.updated_at.format(),
        author: to_author(user),
    }
}

} // verus!
