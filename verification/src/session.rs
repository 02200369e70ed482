//! Session resolver: from the value of an `Authorization` header to an
//! authenticated identity, or a typed rejection.
//!
//! The header must carry the scheme marker `Token` followed by the signed
//! token; the token is what stands between the first marker and the next one
//! (or the end of the value), with surrounding whitespace trimmed. A value
//! without the marker is a `MalformedHeader` failure, never a crash.

use vstd::prelude::*;
use vstd::string::StrSliceExecFns;

use crate::token::{verify, verify_spec, SigningConfig};
use crate::ServiceError;

verus! {

/// Why a request failed authentication. All variants are reported to the
/// caller as one generic "unauthorized" condition.
#[derive(Clone, Copy, Debug, PartialEq, Eq, Structural)]
pub enum AuthError {
    /// No `Authorization` header was given.
    MissingHeader,
    /// The header value does not contain the `Token` scheme marker.
    MalformedHeader,
    /// The token did not verify: bad signature, expired, or unparsable.
    InvalidToken,
}

/// The per-request authenticated identity: the subject user id of the
/// verified token, and the raw token it was read from.
#[derive(Clone, Debug)]
pub struct SessionState {
    pub user_id: i64,
    pub token: String,
}

impl AuthError {
    /// The message the boundary reports for this failure. The internal
    /// cause never reaches the caller in more detail than this.
    pub open spec fn spec_message(self) -> Seq<char> {
        match self {
            AuthError::MissingHeader => "invalid authorization header!"@,
            AuthError::MalformedHeader => "invalid authorization header!"@,
            AuthError::InvalidToken => "invalid token!"@,
        }
    }

    /// Wraps the failure as the generic unauthorized error body.
    pub fn to_service_error(&self) -> (r: ServiceError)
        ensures
            r.errors.body@.len() == 1,
            r.errors.body@[0]@ == self.spec_message(),
    {
        match self {
            AuthError::MissingHeader => ServiceError::new("invalid authorization header!".to_owned()),
            AuthError::MalformedHeader => ServiceError::new(
                "invalid authorization header!".to_owned(),
            ),
            AuthError::InvalidToken => ServiceError::new("invalid token!".to_owned()),
        }
    }
}

/// The characters trimmed around the extracted token (ASCII whitespace;
/// header values hold no other kind).
pub open spec fn is_space(c: char) -> bool {
    c == ' ' || c == '\t' || c == '\r' || c == '\n'
}

/// The scheme marker stands at position `i` of `s`.
pub open spec fn marker_at(s: Seq<char>, i: int) -> bool {
    0 <= i && i + 5 <= s.len() && s.subrange(i, i + 5) == "Token"@
}

/// The first position at or after `i` where the marker stands, or `s.len()`
/// where there is none.
pub open spec fn find_marker(s: Seq<char>, i: int) -> int
    decreases s.len() - i when 0 <= i <= s.len()
{
    if marker_at(s, i) {
        i
    } else if i < s.len() {
        find_marker(s, i + 1)
    } else {
        i
    }
}

/// The first position at or after `i` holding a non-whitespace character,
/// or `s.len()`.
pub open spec fn skip_space_from(s: Seq<char>, i: int) -> int
    decreases s.len() - i when 0 <= i <= s.len()
{
    if i < s.len() && is_space(s[i]) {
        skip_space_from(s, i + 1)
    } else {
        i
    }
}

/// The least bound at or below `i` with no whitespace just before it, or `0`.
pub open spec fn skip_space_back(s: Seq<char>, i: int) -> int
    decreases i when 0 <= i <= s.len()
{
    if i > 0 && is_space(s[i - 1]) {
        skip_space_back(s, i - 1)
    } else {
        i
    }
}

/// `s` with leading and trailing whitespace removed.
pub open spec fn trim_spec(s: Seq<char>) -> Seq<char> {
    let lo = skip_space_from(s, 0);
    let hi = skip_space_back(s, s.len() as int);
    if lo <= hi {
        s.subrange(lo, hi)
    } else {
        Seq::empty()
    }
}

/// The token a header value `h` carries: the trimmed segment between the
/// first `Token` marker and the next one (or the end), or `None` where the
/// marker is absent.
pub open spec fn extracted_token(h: Seq<char>) -> Option<Seq<char>> {
    let start = find_marker(h, 0);
    if marker_at(h, start) {
        let seg_start = start + 5;
        let seg_end = find_marker(h, seg_start);
        Some(trim_spec(h.subrange(seg_start, seg_end)))
    } else {
        None
    }
}

proof fn lemma_find_marker_past_end(s: Seq<char>, i: int)
    requires
        0 <= i <= s.len(),
        i + 5 > s.len(),
    ensures
        find_marker(s, i) == s.len(),
    decreases s.len() - i,
{
    if i < s.len() {
        lemma_find_marker_past_end(s, i + 1);
    }
}

proof fn lemma_find_marker_found(s: Seq<char>, i: int)
    requires
        0 <= i <= s.len(),
    ensures
        i <= find_marker(s, i) <= s.len(),
        find_marker(s, i) == s.len() || marker_at(s, find_marker(s, i)),
    decreases s.len() - i,
{
    if !marker_at(s, i) && i < s.len() {
        lemma_find_marker_found(s, i + 1);
    }
}

/// Finds the first occurrence of the scheme marker at or after `from`.
fn find_marker_exec(h: &str, from: usize) -> (i: usize)
    requires
        from <= h@.len(),
    ensures
        i == find_marker(h@, from as int),
        from <= i <= h@.len(),
{
    let len = h.unicode_len();
    let mut i = from;
    loop
        invariant
            from <= i <= len,
            len == h@.len(),
            from <= h@.len(),
            find_marker(h@, from as int) == find_marker(h@, i as int),
        decreases len - i,
    {
        if len - i < 5 {
            proof {
                lemma_find_marker_past_end(h@, i as int);
            }
            return len;
        }
        if h.get_char(i) == 'T' && h.get_char(i + 1) == 'o' && h.get_char(i + 2) == 'k'
            && h.get_char(i + 3) == 'e' && h.get_char(i + 4) == 'n' {
            proof {
                reveal_strlit("Token");
                assert(h@.subrange(i as int, i + 5) =~= "Token"@);
            }
            return i;
        }
        proof {
            reveal_strlit("Token");
            if marker_at(h@, i as int) {
                assert(h@.subrange(i as int, i + 5)[0] == h@[i as int]);
                assert(h@.subrange(i as int, i + 5)[1] == h@[i + 1]);
                assert(h@.subrange(i as int, i + 5)[2] == h@[i + 2]);
                assert(h@.subrange(i as int, i + 5)[3] == h@[i + 3]);
                assert(h@.subrange(i as int, i + 5)[4] == h@[i + 4]);
            }
        }
        i = i + 1;
    }
}

/// Whether `c` counts as whitespace around the token.
fn is_space_exec(c: char) -> (b: bool)
    ensures
        b == is_space(c),
{
    c == ' ' || c == '\t' || c == '\r' || c == '\n'
}

/// Copies `s` with leading and trailing whitespace removed.
fn trim_str(s: &str) -> (r: String)
    ensures
        r@ == trim_spec(s@),
{
    let len = s.unicode_len();
    let mut lo: usize = 0;
    while lo < len && is_space_exec(s.get_char(lo))
        invariant
            0 <= lo <= len,
            len == s@.len(),
            skip_space_from(s@, 0) == skip_space_from(s@, lo as int),
        decreases len - lo,
    {
        lo = lo + 1;
    }
    let mut hi: usize = len;
    while hi > 0 && is_space_exec(s.get_char(hi - 1))
        invariant
            0 <= hi <= len,
            len == s@.len(),
            skip_space_back(s@, len as int) == skip_space_back(s@, hi as int),
        decreases hi,
    {
        hi = hi - 1;
    }
    if lo <= hi {
        s.substring_char(lo, hi).to_owned()
    } else {
        String::new()
    }
}

impl SessionState {
    /// Resolves the session for one request from its `Authorization` header
    /// value, checking the carried token under `secret` against the clock
    /// reading `now`.
    ///
    /// An absent header fails with `MissingHeader`; a value without the
    /// `Token` scheme marker fails with `MalformedHeader` (never a crash);
    /// a token that does not verify fails with `InvalidToken`. On success
    /// the session carries the token's subject and the raw token text.
    pub fn from_header(auth: Option<&str>, config: &SigningConfig, now: u64) -> (r: Result<
        SessionState,
        AuthError,
    >)
        ensures
            auth is None ==> r == Err::<SessionState, AuthError>(AuthError::MissingHeader),
            auth matches Some(h) ==> (match extracted_token(h@) {
                None => r == Err::<SessionState, AuthError>(AuthError::MalformedHeader),
                Some(tok) => match verify_spec(config.secret@, tok, now) {
                    Some(c) => (r matches Ok(s) && s.user_id == c.sub && s.token@ == tok),
                    None => r == Err::<SessionState, AuthError>(AuthError::InvalidToken),
                },
            }),
    {
        match auth {
            None => Err(AuthError::MissingHeader),
            Some(h) => {
                let start = find_marker_exec(h, 0);
                let len = h.unicode_len();
                if start == len {
                    return Err(AuthError::MalformedHeader);
                }
                proof {
                    lemma_find_marker_found(h@, 0);
                }
                let seg_start = start + 5;
                let seg_end = find_marker_exec(h, seg_start);
                let seg = h.substring_char(seg_start, seg_end);
                let tok = trim_str(seg);
                match verify(config, tok.as_str(), now) {
                    Ok(c) => Ok(SessionState { user_id: c.sub, token: tok }),
                    Err(_) => Err(AuthError::InvalidToken),
                }
            },
        }
    }
}

} // verus!
