//! Core of a social-publishing API backend: stateless session tokens,
//! per-request session resolution from the `Authorization` header, and the
//! composition of the filtered, paginated article-listing query.
//!
//! The surrounding HTTP handlers and the storage calls live outside this
//! crate; everything here is pure computation with verified contracts.

use vstd::prelude::*;

pub mod accounts;
pub mod article;
pub mod comment;
pub mod models;
pub mod numfmt;
pub mod query;
pub mod session;
pub mod store;
pub mod strutil;
pub mod tags;
pub mod timefmt;
pub mod token;
pub mod user;
pub mod utils;

verus! {

/// Body of the error payload sent to a client: a list of messages.
pub struct ErrorsBody {
    pub body: Vec<String>,
}

/// The error shape every failed request is reported with.
pub struct ServiceError {
    pub errors: ErrorsBody,
}

impl ServiceError {
    /// Wraps a single message in the error response shape.
    pub fn new(msg: String) -> (r: Self)
        ensures
            r.errors.body@.len() == 1,
            r.errors.body@[0]@ == msg@,
    {
        let mut body: Vec<String> = Vec::new();
        body.push(msg);
        ServiceError { errors: ErrorsBody { body } }
    }
}

} // verus!
