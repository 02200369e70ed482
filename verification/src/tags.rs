//! The denormalized tag-list column: a JSON-encoded array of strings kept
//! in one column of the article relation. It is written as given and read
//! back sorted ascending; text that does not parse reads as the empty list.

use vstd::prelude::*;
use vstd::relations::sorted_by;

use crate::strutil::{lex_leq, sort_strings, str_views};

verus! {

/// The JSON array text that serializing a tag list yields. Deterministic in
/// the list alone.
pub uninterp spec fn tags_json_of(tags: Seq<Seq<char>>) -> Seq<char>;

/// What parsing text as a JSON array of strings yields: the strings, or
/// `None` where the text is not such an array. Deterministic in the text.
pub uninterp spec fn tags_parsed_of(s: Seq<char>) -> Option<Seq<Seq<char>>>;

/// The tag list stored text holds: what it parses to, or the empty list
/// where it does not parse (the defensive default of the read path).
pub open spec fn parsed_tags_or_empty(s: Seq<char>) -> Seq<Seq<char>> {
    match tags_parsed_of(s) {
        Some(tags) => tags,
        None => Seq::empty(),
    }
}

/// Relies on `serde_json::to_string` for a vector of strings: the array
/// text depends on the list alone, parsing it back yields the list, and
/// serializing a vector of strings does not fail (the fallback is never
/// taken).
#[verifier::external_body]
fn tags_to_json(tags: &Vec<String>) -> (r: String)
    ensures
        r@ == tags_json_of(str_views(tags@)),
        tags_parsed_of(r@) == Some(str_views(tags@)),
{
    serde_json::to_string(tags).unwrap_or("[]".to_string())
}

/// Relies on `serde_json::from_str` for a vector of strings: the outcome
/// depends on the text alone.
#[verifier::external_body]
fn tags_from_json(s: &str) -> (r: Option<Vec<String>>)
    ensures
        match r {
            Some(v) => tags_parsed_of(s@) == Some(str_views(v@)),
            None => tags_parsed_of(s@) is None,
        },
{
    serde_json::from_str::<Vec<String>>(s).ok()
}

/// Serializes a tag list for the stored column, in the given order.
/// Reading the result back yields exactly these tags.
pub fn encode_tag_list(tags: &Vec<String>) -> (r: String)
    ensures
        r@ == tags_json_of(str_views(tags@)),
        tags_parsed_of(r@) == Some(str_views(tags@)),
{
    tags_to_json(tags)
}

/// Reads a stored tag-list column back: the tags the text holds, sorted
/// ascending; the empty list where the text does not parse.
pub fn decode_tag_list(s: &str) -> (r: Vec<String>)
    ensures
        sorted_by(str_views(r@), lex_leq()),
        str_views(r@).to_multiset() == parsed_tags_or_empty(s@).to_multiset(),
{
    match tags_from_json(s) {
        Some(v) => sort_strings(v),
        None => {
            let r: Vec<String> = Vec::new();
            proof {
                assert(str_views(r@) =~= Seq::<Seq<char>>::empty());
                assert(parsed_tags_or_empty(s@) == Seq::<Seq<char>>::empty());
            }
            r
        },
    }
}

/// The round trip of the stored column: writing a tag list and reading it
/// back yields an ascending arrangement of exactly the written tags — so,
/// by `strutil::lemma_sorted_unique`, the read-back sequence is the same
/// whatever order the tags were written in.
pub fn tag_list_round_trip(tags: Vec<String>) -> (r: Vec<String>)
    ensures
        sorted_by(str_views(r@), lex_leq()),
        str_views(r@).to_multiset() == str_views(tags@).to_multiset(),
{
    let stored = encode_tag_list(&tags);
    decode_tag_list(stored.as_str())
}

} // verus!
