//! Article records, the query specification, response shaping, and the
//! slug given to a new article.

use vstd::prelude::*;
use vstd::relations::sorted_by;
use vstd::string::StringExecFns;

use crate::numfmt::{dec_str, u64_to_string};
use crate::strutil::{lex_leq, str_views};
use crate::tags::{decode_tag_list, parsed_tags_or_empty};
use crate::timefmt::Timestamp;
use crate::user::{author_of, to_author, UserEntity, UserResponse};

verus! {

/// An article-creation request.
#[derive(Debug)]
pub struct ArticleCreateForm {
    pub title: String,
    pub description: String,
    pub body: String,
    pub tag_list: Vec<String>,
}

/// An article-update request: only the present fields change.
#[derive(Debug)]
pub struct ArticleUpdateForm {
    pub title: Option<String>,
    pub description: Option<String>,
    pub body: Option<String>,
    pub tag_list: Option<Vec<String>>,
}

/// The specification of one article listing: four optional predicates that
/// compose as AND, and pagination. `feed_user_id` is never client-supplied;
/// the feed route fills it from the authenticated session.
#[derive(Debug)]
pub struct ArticleQuery {
    pub tag: Option<String>,
    pub author: Option<String>,
    pub favorited: Option<String>,
    pub limit: Option<i32>,
    pub offset: Option<i32>,
    pub feed_user_id: Option<i64>,
}

impl ArticleQuery {
    /// The personal-feed variant of this spec: restricts to authors the
    /// session's user follows. The id comes from the authenticated
    /// session, never from the client.
    pub fn for_feed(self, user_id: i64) -> (r: Self)
        ensures
            r.feed_user_id == Some(user_id),
            r.tag == self.tag,
            r.author == self.author,
            r.favorited == self.favorited,
            r.limit == self.limit,
            r.offset == self.offset,
    {
        ArticleQuery { feed_user_id: Some(user_id), ..self }
    }
}

/// The article shape responses carry.
#[derive(Debug)]
pub struct ArticleResponse {
    pub title: String,
    pub slug: String,
    pub body: String,
    pub created_at: String,
    pub updated_at: String,
    pub description: String,
    pub favorited: bool,
    pub favorites_count: i64,
    pub tag_list: Vec<String>,
    pub author: UserResponse,
}

/// A row of the article relation as the listing query returns it, the
/// denormalized tag list still serialized and the favorites count already
/// aggregated.
#[derive(Debug)]
pub struct ArticleEntity {
    pub id: i64,
    pub title: String,
    pub slug: String,
    pub body: String,
    pub description: String,
    pub created_at: Timestamp,
    pub updated_at: Timestamp,
    pub tag_list: String,
    pub user_id: i64,
    pub favorites_count: i64,
}

impl Clone for ArticleEntity {
    fn clone(&self) -> (r: Self)
        ensures
            r == *self,
    {
        ArticleEntity {
            id: self.id,
            title: self.title.clone(),
            slug: self.slug.clone(),
            body: self.body.clone(),
            description: self.description.clone(),
            created_at: self.created_at,
            updated_at: self.updated_at,
            tag_list: self.tag_list.clone(),
            user_id: self.user_id,
            favorites_count: self.favorites_count,
        }
    }
}

/// A row of the favorite relation: `user_id` has favorited `article_id`.
#[derive(Clone, Copy, Debug, PartialEq, Eq, Structural)]
pub struct ArticleFavoriteEntity {
    pub user_id: i64,
    pub article_id: i64,
}

/// The slug a new article gets. Deterministic in the title; the caller
/// appends the creation instant to keep slugs of same-titled articles
/// apart.
pub uninterp spec fn slug_of(title: Seq<char>) -> Seq<char>;

/// Relies on `slugify::slugify` with no stop words, the `-` separator and
/// no length cap (the arguments its one-argument macro form passes): the
/// slug depends on the title alone.
#[verifier::external_body]
pub(crate) fn slugify_title(title: &str) -> (r: String)
    ensures
        r@ == slug_of(title@),
{
    slugify::slugify(title, "", "-", None)
}

/// The slug of a new article: the slugified title, a dash, and the
/// creation instant in epoch milliseconds.
pub fn make_slug(title: &str, timestamp_millis: u64) -> (r: String)
    ensures
        r@ == slug_of(title@) + seq!['-'] + dec_str(timestamp_millis as int),
{
    let mut r = slugify_title(title);
    r.append("-");
    let millis = u64_to_string(timestamp_millis);
    r.append(millis.as_str());
    proof {
        reveal_strlit("-");
        assert(r@ =~= slug_of(title@) + seq!['-'] + dec_str(timestamp_millis as int));
    }
    r
}

/// Shapes an article row, its author's user row and the viewer's favorite
/// state as a response: stored fields as they are, both timestamps
/// rendered, and the tag column read back sorted ascending (unparsable
/// text reads as no tags).
pub fn to_article_response(article: ArticleEntity, user: UserEntity, favorited: bool) -> (r:
    ArticleResponse)
    ensures
        r.title == article.title,
        r.slug == article.slug,
        r.body == article.body,
        r.description == article.description,
        r.created_at@ == article.created_at.spec_format(),
        r.updated_at@ == article.updated_at.spec_format(),
        r.favorited == favorited,
        r.favorites_count == article.favorites_count,
        sorted_by(str_views(r.tag_list@), lex_leq()),
        str_views(r.tag_list@).to_multiset() == parsed_tags_or_empty(
            article.tag_list@,
        ).to_multiset(),
        r.author == author_of(user),
{
    let tag_list = decode_tag_list(article.tag_list.as_str());
    ArticleResponse {
        title: article.title,
        slug: article.slug,
        description: article.description,
        body: article.body,
        created_at: article.created_at.format(),
        updated_at: article.updated_at.format(),
        favorites_count: article.favorites_count,
        favorited,
        tag_list,
        author: to_author(user),
    }
}

} // verus!
