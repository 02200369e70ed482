//! The relational snapshot the article listing reads, and the listing
//! itself: four optional predicates composed as AND over the article,
//! favorite, tag, user and follow relations, a favorites-count aggregation,
//! ordering by article id descending, and offset/limit pagination.
//!
//! `select_articles_by_query` is the query's semantics on a snapshot of the
//! relations; the storage layer runs the equivalent SQL that
//! `query::compile_article_query` emits.

use vstd::prelude::*;

use crate::article::{ArticleEntity, ArticleFavoriteEntity, ArticleQuery};
use crate::models::TagEntity;
use crate::user::{UserEntity, UserFollowEntity};

verus! {

/// The value of an optional string predicate, where present.
pub open spec fn opt_str_view(o: Option<String>) -> Seq<char> {
    match o {
        Some(s) => s@,
        None => Seq::empty(),
    }
}

impl ArticleQuery {
    /// An empty string is "no restriction", not a predicate: a caller
    /// passing one must not change the result over leaving the field out.
    pub open spec fn tag_present(self) -> bool {
        self.tag matches Some(s) && s@.len() > 0
    }

    pub open spec fn author_present(self) -> bool {
        self.author matches Some(s) && s@.len() > 0
    }

    pub open spec fn favorited_present(self) -> bool {
        self.favorited matches Some(s) && s@.len() > 0
    }

    pub open spec fn feed_present(self) -> bool {
        self.feed_user_id is Some
    }

    /// The offset actually applied: the given one clamped to zero from
    /// below (a negative offset is treated as zero), zero where absent.
    pub open spec fn spec_offset(self) -> int {
        match self.offset {
            Some(o) => if o < 0 {
                0
            } else {
                o as int
            },
            None => 0,
        }
    }

    /// The limit actually applied: the given one clamped to zero from
    /// below (a negative limit yields nothing), twenty where absent.
    pub open spec fn spec_limit(self) -> int {
        match self.limit {
            Some(l) => if l < 0 {
                0
            } else {
                l as int
            },
            None => 20,
        }
    }
}

/// A snapshot of the relations the article listing reads.
pub struct Database {
    pub users: Vec<UserEntity>,
    pub articles: Vec<ArticleEntity>,
    pub favorites: Vec<ArticleFavoriteEntity>,
    pub tags: Vec<TagEntity>,
    pub follows: Vec<UserFollowEntity>,
}

impl Database {
    /// What the storage layer guarantees of the relations: article ids
    /// ascend in insertion order (they auto-increment), user ids are
    /// unique, and the favorite and follow relations hold each pair at
    /// most once.
    pub open spec fn wf(self) -> bool {
        &&& forall|i: int, j: int|
            #![trigger self.articles@[i], self.articles@[j]]
            0 <= i < j < self.articles@.len() ==> self.articles@[i].id < self.articles@[j].id
        &&& forall|i: int, j: int|
            #![trigger self.users@[i], self.users@[j]]
            0 <= i < j < self.users@.len() ==> self.users@[i].id != self.users@[j].id
        &&& forall|i: int, j: int|
            #![trigger self.favorites@[i], self.favorites@[j]]
            0 <= i < j < self.favorites@.len() ==> self.favorites@[i] != self.favorites@[j]
        &&& forall|i: int, j: int|
            #![trigger self.follows@[i], self.follows@[j]]
            0 <= i < j < self.follows@.len() ==> self.follows@[i] != self.follows@[j]
        &&& self.favorites@.len() <= 0x7fff_ffff_ffff_ffff
    }

    /// A user row with this id and username exists.
    pub open spec fn user_named(self, id: i64, name: Seq<char>) -> bool {
        exists|i: int|
            0 <= i < self.users@.len() && (#[trigger] self.users@[i]).id == id
                && self.users@[i].username@ == name
    }

    /// A tag row with this name references the article.
    pub open spec fn has_tag(self, article_id: i64, name: Seq<char>) -> bool {
        exists|i: int|
            0 <= i < self.tags@.len() && (#[trigger] self.tags@[i]).article_id == article_id
                && self.tags@[i].name@ == name
    }

    /// The user has favorited the article.
    pub open spec fn has_favorite(self, user_id: i64, article_id: i64) -> bool {
        exists|i: int|
            0 <= i < self.favorites@.len() && (#[trigger] self.favorites@[i]).user_id == user_id
                && self.favorites@[i].article_id == article_id
    }

    /// Some user with this username has favorited the article.
    pub open spec fn favorited_by_named(self, article_id: i64, name: Seq<char>) -> bool {
        exists|i: int|
            0 <= i < self.favorites@.len() && (#[trigger] self.favorites@[i]).article_id
                == article_id && self.user_named(self.favorites@[i].user_id, name)
    }

    /// `follower` follows `followee`.
    pub open spec fn follows_user(self, follower: i64, followee: i64) -> bool {
        exists|i: int|
            0 <= i < self.follows@.len() && (#[trigger] self.follows@[i]).follower_user_id
                == follower && self.follows@[i].followee_user_id == followee
    }

    /// Whether the article satisfies every predicate the spec sets: the
    /// four restrictions compose as AND, and an absent (or empty-string)
    /// predicate restricts nothing.
    pub open spec fn article_matches(self, q: ArticleQuery, a: ArticleEntity) -> bool {
        &&& (q.author_present() ==> self.user_named(a.user_id, opt_str_view(q.author)))
        &&& (q.tag_present() ==> self.has_tag(a.id, opt_str_view(q.tag)))
        &&& (q.favorited_present() ==> self.favorited_by_named(a.id, opt_str_view(q.favorited)))
        &&& (q.feed_present() ==> self.follows_user(
            match q.feed_user_id {
                Some(id) => id,
                None => 0,
            },
            a.user_id,
        ))
    }

    /// The number of favorite rows for the article.
    pub open spec fn fav_count(self, article_id: i64) -> nat {
        self.favorites@.filter(|f: ArticleFavoriteEntity| f.article_id == article_id).len()
    }

    /// The article row as the listing returns it: the aggregated favorites
    /// count filled in.
    pub open spec fn with_count(self, a: ArticleEntity) -> ArticleEntity {
        ArticleEntity { favorites_count: self.fav_count(a.id) as i64, ..a }
    }
}

/// Looks a user id and username pair up in the user relation.
fn user_named_exec(db: &Database, id: i64, name: &String) -> (b: bool)
    ensures
        b == db.user_named(id, name@),
{
    let n = db.users.len();
    let mut k: usize = 0;
    while k < n
        invariant
            0 <= k <= n,
            n == db.users@.len(),
            forall|j: int|
                0 <= j < k ==> !((#[trigger] db.users@[j]).id == id && db.users@[j].username@
                    == name@),
        decreases n - k,
    {
        if db.users[k].id == id && db.users[k].username == *name {
            return true;
        }
        k = k + 1;
    }
    false
}

/// Looks an article/tag-name pair up in the tag relation.
fn has_tag_exec(db: &Database, article_id: i64, name: &String) -> (b: bool)
    ensures
        b == db.has_tag(article_id, name@),
{
    let n = db.tags.len();
    let mut k: usize = 0;
    while k < n
        invariant
            0 <= k <= n,
            n == db.tags@.len(),
            forall|j: int|
                0 <= j < k ==> !((#[trigger] db.tags@[j]).article_id == article_id
                    && db.tags@[j].name@ == name@),
        decreases n - k,
    {
        if db.tags[k].article_id == article_id && db.tags[k].name == *name {
            return true;
        }
        k = k + 1;
    }
    false
}

/// Looks a (user, article) pair up in the favorite relation — the point
/// lookup behind the per-viewer "did I favorite this" flag.
pub fn select_article_favorite(db: &Database, user_id: i64, article_id: i64) -> (b: bool)
    ensures
        b == db.has_favorite(user_id, article_id),
{
    let n = db.favorites.len();
    let mut k: usize = 0;
    while k < n
        invariant
            0 <= k <= n,
            n == db.favorites@.len(),
            forall|j: int|
                0 <= j < k ==> !((#[trigger] db.favorites@[j]).user_id == user_id
                    && db.favorites@[j].article_id == article_id),
        decreases n - k,
    {
        if db.favorites[k].user_id == user_id && db.favorites[k].article_id == article_id {
            return true;
        }
        k = k + 1;
    }
    false
}

/// Whether a user with the given name has favorited the article.
fn favorited_by_named_exec(db: &Database, article_id: i64, name: &String) -> (b: bool)
    ensures
        b == db.favorited_by_named(article_id, name@),
{
    let n = db.favorites.len();
    let mut k: usize = 0;
    while k < n
        invariant
            0 <= k <= n,
            n == db.favorites@.len(),
            forall|j: int|
                0 <= j < k ==> !((#[trigger] db.favorites@[j]).article_id == article_id
                    && db.user_named(db.favorites@[j].user_id, name@)),
        decreases n - k,
    {
        if db.favorites[k].article_id == article_id && user_named_exec(
            db,
            db.favorites[k].user_id,
            name,
        ) {
            return true;
        }
        k = k + 1;
    }
    false
}

/// Looks a (follower, followee) pair up in the follow relation.
pub fn select_follow_by_user(db: &Database, follower_user_id: i64, followee_user_id: i64) -> (b:
    bool)
    ensures
        b == db.follows_user(follower_user_id, followee_user_id),
{
    let n = db.follows.len();
    let mut k: usize = 0;
    while k < n
        invariant
            0 <= k <= n,
            n == db.follows@.len(),
            forall|j: int|
                0 <= j < k ==> !((#[trigger] db.follows@[j]).follower_user_id == follower_user_id
                    && db.follows@[j].followee_user_id == followee_user_id),
        decreases n - k,
    {
        if db.follows[k].follower_user_id == follower_user_id && db.follows[k].followee_user_id
            == followee_user_id {
            return true;
        }
        k = k + 1;
    }
    false
}

/// Counts the favorite rows for the article.
fn fav_count_exec(db: &Database, article_id: i64) -> (c: i64)
    requires
        db.wf(),
    ensures
        c >= 0,
        c == db.fav_count(article_id) as i64,
{
    broadcast use vstd::seq_lib::group_filter_ensures;

    let ghost pred = |f: ArticleFavoriteEntity| f.article_id == article_id;
    let n = db.favorites.len();
    let mut count: i64 = 0;
    let mut k: usize = 0;
    proof {
        assert(db.favorites@.subrange(0, 0) =~= Seq::<ArticleFavoriteEntity>::empty());
        reveal(Seq::filter);
    }
    while k < n
        invariant
            0 <= k <= n,
            n == db.favorites@.len(),
            n <= 0x7fff_ffff_ffff_ffff,
            0 <= count <= k,
            count == db.favorites@.subrange(0, k as int).filter(pred).len(),
            pred == (|f: ArticleFavoriteEntity| f.article_id == article_id),
        decreases n - k,
    {
        proof {
            let prefix = db.favorites@.subrange(0, k as int);
            let one = seq![db.favorites@[k as int]];
            assert(db.favorites@.subrange(0, k + 1) =~= prefix + one);
            Seq::filter_distributes_over_add(prefix, one, pred);
            reveal_with_fuel(Seq::filter, 2);
            assert(one.drop_last().len() == 0);
            if pred(db.favorites@[k as int]) {
                assert(one.filter(pred) =~= one.drop_last().push(db.favorites@[k as int]));
                assert(one.filter(pred).len() == 1);
            } else {
                assert(one.filter(pred).len() == 0);
            }
        }
        if db.favorites[k].article_id == article_id {
            count = count + 1;
        }
        k = k + 1;
    }
    proof {
        assert(db.favorites@.subrange(0, n as int) =~= db.favorites@);
    }
    count
}

/// Whether the article satisfies every present predicate of the spec.
fn article_matches_exec(db: &Database, q: &ArticleQuery, a: &ArticleEntity) -> (b: bool)
    ensures
        b == db.article_matches(*q, *a),
{
    let author_ok = match &q.author {
        Some(name) => name.as_str().is_empty() || user_named_exec(db, a.user_id, name),
        None => true,
    };
    let tag_ok = match &q.tag {
        Some(name) => name.as_str().is_empty() || has_tag_exec(db, a.id, name),
        None => true,
    };
    let favorited_ok = match &q.favorited {
        Some(name) => name.as_str().is_empty() || favorited_by_named_exec(db, a.id, name),
        None => true,
    };
    let feed_ok = match &q.feed_user_id {
        Some(fid) => select_follow_by_user(db, *fid, a.user_id),
        None => true,
    };
    author_ok && tag_ok && favorited_ok && feed_ok
}

/// The article row with its aggregated favorites count filled in.
fn with_count_exec(db: &Database, a: &ArticleEntity) -> (r: ArticleEntity)
    requires
        db.wf(),
    ensures
        r == db.with_count(*a),
{
    let count = fav_count_exec(db, a.id);
    let mut r = a.clone();
    r.favorites_count = count;
    r
}

/// One page of a sequence: `lim` elements from position `off` on, clipped
/// to the sequence's bounds.
pub open spec fn page<A>(s: Seq<A>, off: int, lim: int) -> Seq<A>
    recommends
        0 <= off,
        0 <= lim,
{
    let lo = if off <= s.len() {
        off
    } else {
        s.len() as int
    };
    let hi = if off + lim <= s.len() {
        off + lim
    } else {
        s.len() as int
    };
    s.subrange(lo, hi)
}

proof fn lemma_page_push<A>(s: Seq<A>, x: A, off: int, lim: int)
    requires
        0 <= off,
        0 <= lim,
    ensures
        page(s.push(x), off, lim) == if off <= s.len() < off + lim {
            page(s, off, lim).push(x)
        } else {
            page(s, off, lim)
        },
{
    if off <= s.len() < off + lim {
        assert(page(s.push(x), off, lim) =~= page(s, off, lim).push(x));
    } else {
        assert(page(s.push(x), off, lim) =~= page(s, off, lim));
    }
}

proof fn lemma_reverse_add<A>(x: Seq<A>, y: Seq<A>)
    ensures
        (x + y).reverse() == y.reverse() + x.reverse(),
{
    assert((x + y).reverse() =~= y.reverse() + x.reverse());
}

proof fn lemma_filter_singleton<A>(x: A, pred: spec_fn(A) -> bool)
    ensures
        seq![x].filter(pred) == if pred(x) {
            seq![x]
        } else {
            Seq::<A>::empty()
        },
{
    reveal_with_fuel(Seq::filter, 2);
    if pred(x) {
        assert(seq![x].filter(pred) =~= seq![x]);
    } else {
        assert(seq![x].filter(pred) =~= Seq::<A>::empty());
    }
}

impl Database {
    /// The articles that satisfy the spec's predicates, newest (highest
    /// id) first.
    pub open spec fn matching_desc(self, q: ArticleQuery) -> Seq<ArticleEntity> {
        self.articles@.filter(|a: ArticleEntity| self.article_matches(q, a)).reverse()
    }

    /// The matching articles at or after position `i` of the article
    /// relation, newest first — what the listing loop has gone over.
    pub open spec fn matching_desc_from(self, q: ArticleQuery, i: int) -> Seq<ArticleEntity> {
        self.articles@.subrange(i, self.articles@.len() as int).filter(
            |a: ArticleEntity| self.article_matches(q, a),
        ).reverse()
    }

    /// What the listing returns for `q`: the matching articles, newest
    /// first, the page `[offset, offset + limit)` of them, each with its
    /// aggregated favorites count.
    pub open spec fn query_results(self, q: ArticleQuery) -> Seq<ArticleEntity> {
        page(self.matching_desc(q), q.spec_offset(), q.spec_limit()).map_values(
            |a: ArticleEntity| self.with_count(a),
        )
    }
}

/// The applied offset: the requested one clamped to zero from below,
/// zero where absent.
fn clamped_offset(q: &ArticleQuery) -> (o: usize)
    ensures
        o as int == q.spec_offset(),
{
    match &q.offset {
        Some(v) => if *v < 0 {
            0
        } else {
            *v as usize
        },
        None => 0,
    }
}

/// The applied limit: the requested one clamped to zero from below,
/// twenty where absent.
fn clamped_limit(q: &ArticleQuery) -> (l: usize)
    ensures
        l as int == q.spec_limit(),
{
    match &q.limit {
        Some(v) => if *v < 0 {
            0
        } else {
            *v as usize
        },
        None => 20,
    }
}

/// Runs one article listing over the snapshot: filters by the spec's
/// predicates, orders by article id descending, pages by offset and
/// limit, and fills each returned row's favorites count.
pub fn select_articles_by_query(db: &Database, query: &ArticleQuery) -> (r: Vec<ArticleEntity>)
    requires
        db.wf(),
    ensures
        r@ == db.query_results(*query),
{
    let ghost pred = |a: ArticleEntity| db.article_matches(*query, a);
    let ghost count_of = |a: ArticleEntity| db.with_count(a);
    let offset = clamped_offset(query);
    let limit = clamped_limit(query);
    let mut out: Vec<ArticleEntity> = Vec::new();
    let mut skipped: usize = 0;
    let n = db.articles.len();
    let mut i: usize = n;
    proof {
        reveal_with_fuel(Seq::filter, 1);
        assert(db.articles@.subrange(n as int, n as int) =~= Seq::<ArticleEntity>::empty());
        assert(db.matching_desc_from(*query, n as int).len() == 0);
        assert(page(db.matching_desc_from(*query, n as int), offset as int, limit as int) =~= Seq::<
            ArticleEntity,
        >::empty());
        assert(out@ =~= page(
            db.matching_desc_from(*query, n as int),
            offset as int,
            limit as int,
        ).map_values(count_of));
    }
    while i > 0
        invariant
            0 <= i <= n,
            n == db.articles@.len(),
            db.wf(),
            pred == (|a: ArticleEntity| db.article_matches(*query, a)),
            count_of == (|a: ArticleEntity| db.with_count(a)),
            offset as int == query.spec_offset(),
            limit as int == query.spec_limit(),
            skipped as int == (if db.matching_desc_from(*query, i as int).len() < offset as int {
                db.matching_desc_from(*query, i as int).len() as int
            } else {
                offset as int
            }),
            out@ == page(
                db.matching_desc_from(*query, i as int),
                offset as int,
                limit as int,
            ).map_values(count_of),
        decreases i,
    {
        i = i - 1;
        let ghost old_proc = db.matching_desc_from(*query, i + 1);
        let ghost elem = db.articles@[i as int];
        proof {
            assert(db.articles@.subrange(i as int, n as int) =~= seq![elem] + db.articles@.subrange(
                i + 1,
                n as int,
            ));
            Seq::filter_distributes_over_add(
                seq![elem],
                db.articles@.subrange(i + 1, n as int),
                pred,
            );
            lemma_filter_singleton(elem, pred);
            lemma_reverse_add(seq![elem].filter(pred), db.articles@.subrange(i + 1, n as int).filter(pred));
            if pred(elem) {
                assert(seq![elem].filter(pred).reverse() =~= seq![elem]);
                assert(db.matching_desc_from(*query, i as int) =~= old_proc.push(elem));
                lemma_page_push(old_proc, elem, offset as int, limit as int);
            } else {
                assert(seq![elem].filter(pred).reverse() =~= Seq::<ArticleEntity>::empty());
                assert(db.matching_desc_from(*query, i as int) =~= old_proc);
            }
        }
        let a = &db.articles[i];
        if article_matches_exec(db, query, a) {
            if skipped < offset {
                skipped = skipped + 1;
            } else if out.len() < limit {
                let row = with_count_exec(db, a);
                out.push(row);
                proof {
                    assert(out@ =~= page(
                        db.matching_desc_from(*query, i as int),
                        offset as int,
                        limit as int,
                    ).map_values(count_of));
                }
            } else {
                proof {
                    assert(out@.len() == page(old_proc, offset as int, limit as int).len());
                    assert(page(
                        db.matching_desc_from(*query, i as int),
                        offset as int,
                        limit as int,
                    ) == page(old_proc, offset as int, limit as int));
                }
            }
        }
    }
    proof {
        assert(db.articles@.subrange(0, n as int) =~= db.articles@);
        assert(db.matching_desc_from(*query, 0) == db.matching_desc(*query));
    }
    out
}

proof fn lemma_filter_all<A>(s: Seq<A>, pred: spec_fn(A) -> bool)
    requires
        forall|i: int| 0 <= i < s.len() ==> pred(#[trigger] s[i]),
    ensures
        s.filter(pred) == s,
    decreases s.len(),
{
    reveal_with_fuel(Seq::filter, 1);
    if s.len() > 0 {
        lemma_filter_all(s.drop_last(), pred);
        assert(pred(s.last()));
        assert(s.filter(pred) =~= s.drop_last().push(s.last()));
        assert(s =~= s.drop_last().push(s.last()));
    }
}

proof fn lemma_filter_subset<A>(s: Seq<A>, pred: spec_fn(A) -> bool)
    ensures
        forall|x: A| #[trigger] s.filter(pred).contains(x) ==> s.contains(x),
    decreases s.len(),
{
    reveal_with_fuel(Seq::filter, 1);
    if s.len() > 0 {
        lemma_filter_subset(s.drop_last(), pred);
        assert forall|x: A| #[trigger] s.filter(pred).contains(x) implies s.contains(x) by {
            if s.drop_last().contains(x) {
                let k = choose|k: int| 0 <= k < s.drop_last().len() && s.drop_last()[k] == x;
                assert(s[k] == x);
            } else {
                if s.filter(pred).contains(x) {
                    if pred(s.last()) {
                        let m = choose|m: int|
                            0 <= m < s.filter(pred).len() && s.filter(pred)[m] == x;
                        if m < s.filter(pred).len() - 1 {
                            assert(s.drop_last().filter(pred).contains(x));
                        } else {
                            assert(x == s.last());
                            assert(s[s.len() - 1] == x);
                        }
                    } else {
                        assert(s.drop_last().filter(pred).contains(x));
                    }
                }
            }
        }
    }
}

proof fn lemma_filter_keeps_ascending(s: Seq<ArticleEntity>, pred: spec_fn(ArticleEntity) -> bool)
    requires
        forall|i: int, j: int|
            #![trigger s[i], s[j]]
            0 <= i < j < s.len() ==> s[i].id < s[j].id,
    ensures
        forall|i: int, j: int|
            #![trigger s.filter(pred)[i], s.filter(pred)[j]]
            0 <= i < j < s.filter(pred).len() ==> s.filter(pred)[i].id < s.filter(pred)[j].id,
    decreases s.len(),
{
    reveal_with_fuel(Seq::filter, 1);
    if s.len() > 0 {
        let f = s.filter(pred);
        let fd = s.drop_last().filter(pred);
        lemma_filter_keeps_ascending(s.drop_last(), pred);
        lemma_filter_subset(s.drop_last(), pred);
        assert forall|i: int, j: int| 0 <= i < j < f.len() implies #[trigger] f[i].id < #[trigger] f[j].id by {
            if pred(s.last()) && j == f.len() - 1 {
                assert(f[j] == s.last());
                assert(fd.contains(f[i]));
                assert(s.drop_last().contains(f[i]));
                let k = choose|k: int|
                    0 <= k < s.drop_last().len() && s.drop_last()[k] == f[i];
                assert(s[k] == f[i]);
                assert(s[k].id < s[s.len() - 1].id);
            } else {
                assert(f[i] == fd[i] && f[j] == fd[j]);
            }
        }
    }
}

/// With no predicates set, the listing is exactly one page of all the
/// articles, newest first: the most recent `limit` of them (twenty where
/// absent), starting at `offset` (zero where absent), each with its
/// favorites count.
pub proof fn lemma_no_predicates_page(db: Database, q: ArticleQuery)
    requires
        db.wf(),
        q.tag is None,
        q.author is None,
        q.favorited is None,
        q.feed_user_id is None,
    ensures
        db.query_results(q) == page(
            db.articles@.reverse(),
            q.spec_offset(),
            q.spec_limit(),
        ).map_values(|a: ArticleEntity| db.with_count(a)),
{
    let pred = |a: ArticleEntity| db.article_matches(q, a);
    assert forall|i: int| 0 <= i < db.articles@.len() implies pred(#[trigger] db.articles@[i]) by {
        assert(!q.tag_present() && !q.author_present() && !q.favorited_present()
            && !q.feed_present());
    }
    lemma_filter_all(db.articles@, pred);
}

/// The listing is ordered by article id descending — newest first —
/// whatever the spec holds: a deliberate, deterministic order.
pub proof fn lemma_results_descending(db: Database, q: ArticleQuery)
    requires
        db.wf(),
    ensures
        forall|i: int, j: int|
            #![trigger db.query_results(q)[i], db.query_results(q)[j]]
            0 <= i < j < db.query_results(q).len() ==> db.query_results(q)[i].id
                > db.query_results(q)[j].id,
{
    let pred = |a: ArticleEntity| db.article_matches(q, a);
    let f = db.articles@.filter(pred);
    lemma_filter_keeps_ascending(db.articles@, pred);
    assert forall|i: int, j: int| 0 <= i < j < db.query_results(q).len() implies #[trigger] db.query_results(
        q,
    )[i].id > #[trigger] db.query_results(q)[j].id by {
        let r = db.query_results(q);
        let m = db.matching_desc(q);
        let off = if q.spec_offset() <= m.len() {
            q.spec_offset()
        } else {
            m.len() as int
        };
        assert(r[i] == db.with_count(m[off + i]));
        assert(r[j] == db.with_count(m[off + j]));
        assert(m[off + i] == f[f.len() - 1 - (off + i)]);
        assert(m[off + j] == f[f.len() - 1 - (off + j)]);
        assert(f[f.len() - 1 - (off + j)].id < f[f.len() - 1 - (off + i)].id);
    }
}

/// An article row is listed exactly when it satisfies every predicate the
/// spec sets — with `tag` set the listing holds exactly the articles that
/// carry the tag, with `tag` and `author` both set their intersection,
/// never the union — provided the page does not cut it off (offset zero,
/// limit at least the number of matches).
pub proof fn lemma_result_membership(db: Database, q: ArticleQuery, a: ArticleEntity)
    requires
        db.wf(),
        db.articles@.contains(a),
        q.spec_offset() == 0,
        db.matching_desc(q).len() <= q.spec_limit(),
    ensures
        db.query_results(q).contains(db.with_count(a)) <==> db.article_matches(q, a),
{
    broadcast use vstd::seq_lib::group_filter_ensures;

    let pred = |a: ArticleEntity| db.article_matches(q, a);
    let count_of = |a: ArticleEntity| db.with_count(a);
    let f = db.articles@.filter(pred);
    let m = db.matching_desc(q);
    let r = db.query_results(q);
    assert(page(m, 0, q.spec_limit()) =~= m);
    if db.article_matches(q, a) {
        let k = choose|k: int| 0 <= k < db.articles@.len() && db.articles@[k] == a;
        assert(pred(db.articles@[k]));
        assert(f.contains(db.articles@[k]));
        let p = choose|p: int| 0 <= p < f.len() && f[p] == a;
        assert(m[m.len() - 1 - p] == a);
        assert(r[m.len() - 1 - p] == db.with_count(a));
        assert(r.contains(db.with_count(a)));
    }
    if r.contains(db.with_count(a)) {
        let p = choose|p: int| 0 <= p < r.len() && r[p] == db.with_count(a);
        let b = m[p];
        assert(b == f[f.len() - 1 - p]);
        assert(pred(b));
        assert(db.with_count(b) == db.with_count(a));
        assert(b.id == a.id && b.user_id == a.user_id);
        assert(db.article_matches(q, a) == db.article_matches(q, b));
    }
}

/// The favorites count of an article equals the number of distinct users
/// who favorited it: the favorite relation holds each (user, article)
/// pair at most once, so counting rows counts users, and an attempted
/// duplicate favorite cannot raise the count.
pub proof fn lemma_fav_count_distinct_users(db: Database, article_id: i64)
    requires
        db.wf(),
    ensures
        ({
            let users = Set::new(|u: i64| db.has_favorite(u, article_id));
            users.finite() && db.fav_count(article_id) == users.len()
        }),
{
    broadcast use vstd::seq_lib::group_filter_ensures;
    broadcast use vstd::seq_lib::seq_to_set_is_finite;
    broadcast use vstd::set::group_set_axioms;

    let pred = |f: ArticleFavoriteEntity| f.article_id == article_id;
    let f = db.favorites@.filter(pred);
    let ids = f.map_values(|row: ArticleFavoriteEntity| row.user_id);
    let users = Set::new(|u: i64| db.has_favorite(u, article_id));
    lemma_filter_subset(db.favorites@, pred);
    lemma_filter_no_dup(db.favorites@, pred);
    assert forall|i: int, j: int|
        0 <= i < ids.len() && 0 <= j < ids.len() && i != j implies #[trigger] ids[i]
        != #[trigger] ids[j] by {
        assert(f[i] != f[j]);
        assert(pred(f[i]) && pred(f[j]));
    }
    assert(ids.no_duplicates());
    assert forall|u: i64| #[trigger] users.contains(u) implies ids.to_set().contains(u) by {
        let k = choose|k: int|
            0 <= k < db.favorites@.len() && (#[trigger] db.favorites@[k]).user_id == u
                && db.favorites@[k].article_id == article_id;
        assert(pred(db.favorites@[k]));
        assert(f.contains(db.favorites@[k]));
        let p = choose|p: int| 0 <= p < f.len() && f[p] == db.favorites@[k];
        assert(ids[p] == u);
        assert(ids.contains(u));
    }
    assert forall|u: i64| #[trigger] ids.to_set().contains(u) implies users.contains(u) by {
        let p = choose|p: int| 0 <= p < ids.len() && ids[p] == u;
        assert(f[p].user_id == u && pred(f[p]));
        assert(f.contains(f[p]));
        assert(db.favorites@.contains(f[p]));
        let k = choose|k: int| 0 <= k < db.favorites@.len() && db.favorites@[k] == f[p];
        assert(db.has_favorite(u, article_id));
    }
    assert(ids.to_set() =~= users);
    ids.unique_seq_to_set();
}

proof fn lemma_filter_no_dup<A>(s: Seq<A>, pred: spec_fn(A) -> bool)
    requires
        s.no_duplicates(),
    ensures
        s.filter(pred).no_duplicates(),
{
    broadcast use vstd::seq_lib::group_to_multiset_ensures;
    broadcast use vstd::multiset::group_multiset_axioms;

    s.lemma_multiset_has_no_duplicates();
    let f = s.filter(pred);
    assert forall|x: A| f.to_multiset().contains(x) implies f.to_multiset().count(x) == 1 by {
        lemma_filter_multiset_le(s, pred, x);
        assert(f.to_multiset().count(x) >= 1);
        assert(s.to_multiset().count(x) >= 1);
        assert(s.to_multiset().contains(x));
    }
    f.lemma_multiset_has_no_duplicates_conv();
}

proof fn lemma_filter_multiset_le<A>(s: Seq<A>, pred: spec_fn(A) -> bool, x: A)
    ensures
        s.filter(pred).to_multiset().count(x) <= s.to_multiset().count(x),
    decreases s.len(),
{
    broadcast use vstd::seq_lib::group_to_multiset_ensures;

    reveal_with_fuel(Seq::filter, 1);
    if s.len() > 0 {
        lemma_filter_multiset_le(s.drop_last(), pred, x);
        s.drop_last().to_multiset_ensures();
        s.drop_last().filter(pred).to_multiset_ensures();
        assert(s =~= s.drop_last().push(s.last()));
        assert(s.to_multiset() =~= s.drop_last().to_multiset().insert(s.last()));
        if pred(s.last()) {
            assert(s.filter(pred) =~= s.drop_last().filter(pred).push(s.last()));
        }
    }
}

} // verus!
