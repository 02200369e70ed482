//! Compilation of the dynamic statements: the article listing with its
//! optional predicates, and the article and user updates with their
//! optional fields. Every emitted condition is a parametrized placeholder;
//! no value is ever interpolated into the text.

use vstd::prelude::*;
use vstd::string::StringExecFns;

use crate::article::{slug_of, slugify_title, ArticleQuery, ArticleUpdateForm};
use crate::numfmt::{dec_str, dec_str_signed, i64_to_string, u64_to_string};
use crate::store::opt_str_view;
use crate::strutil::str_views;
use crate::user::UserUpdateForm;
use crate::utils::{bcrypt_matches, encrypt_password};

verus! {

/// A parametrized statement: text with `?` placeholders and the values to
/// bind, in placeholder order.
pub struct CompiledQuery {
    pub sql: String,
    pub params: Vec<String>,
}

/// The glue before a restriction: `where` before the first, `and` before
/// every further one — the predicates compose conjunctively.
pub open spec fn clause_sep(first: bool) -> Seq<char> {
    if first {
        " where "@
    } else {
        " and "@
    }
}

/// The text of one article listing: the base relation with the favorites
/// aggregation, the present predicates joined by `and`, the fixed
/// ordering by article id descending, and the `offset, limit` pagination.
pub open spec fn article_query_sql(q: ArticleQuery) -> Seq<char> {
    let s0 =
        "SELECT a.id, a.title, a.slug, a.description, a.body, a.created_at, a.updated_at, a.tag_list, a.user_id, count(af.id) as favorites_count FROM article a left join article_favorite af on a.id = af.article_id"@;
    let s1 = if q.author_present() {
        s0 + clause_sep(true) + "a.user_id in (select id from user where username = ?)"@
    } else {
        s0
    };
    let s2 = if q.tag_present() {
        s1 + clause_sep(!q.author_present())
            + "a.id in (select article_id from tag where name = ?)"@
    } else {
        s1
    };
    let s3 = if q.favorited_present() {
        s2 + clause_sep(!q.author_present() && !q.tag_present())
            + "a.id in (select article_id from article_favorite af join user on af.user_id = user.id where user.username = ?)"@
    } else {
        s2
    };
    let s4 = if q.feed_present() {
        s3 + clause_sep(!q.author_present() && !q.tag_present() && !q.favorited_present())
            + "a.user_id in (select uf.followee_user_id from user_follow uf join user on uf.follower_user_id = user.id where user.id = ?)"@
    } else {
        s3
    };
    s4 + " group by a.id order by a.id desc limit ?, ?"@
}

/// The bound values of one article listing, in placeholder order: the
/// present predicates' values, then the clamped offset and limit.
pub open spec fn article_query_params(q: ArticleQuery) -> Seq<Seq<char>> {
    let p0 = Seq::<Seq<char>>::empty();
    let p1 = if q.author_present() {
        p0.push(opt_str_view(q.author))
    } else {
        p0
    };
    let p2 = if q.tag_present() {
        p1.push(opt_str_view(q.tag))
    } else {
        p1
    };
    let p3 = if q.favorited_present() {
        p2.push(opt_str_view(q.favorited))
    } else {
        p2
    };
    let p4 = if q.feed_present() {
        p3.push(
            dec_str_signed(
                match q.feed_user_id {
                    Some(id) => id as int,
                    None => 0,
                },
            ),
        )
    } else {
        p3
    };
    p4.push(dec_str(q.spec_offset())).push(dec_str(q.spec_limit()))
}

/// Compiles one article listing. The emitted statement computes, on the
/// stored relations, what `store::select_articles_by_query` computes on a
/// snapshot of them: predicates restrict conjunctively, an absent or
/// empty predicate restricts nothing, ordering is by article id
/// descending, and a negative offset or limit is clamped to zero (the
/// limit's default is twenty).
pub fn compile_article_query(q: &ArticleQuery) -> (r: CompiledQuery)
    ensures
        r.sql@ == article_query_sql(*q),
        str_views(r.params@) == article_query_params(*q),
{
    let mut sql = String::new();
    sql.append(
        "SELECT a.id, a.title, a.slug, a.description, a.body, a.created_at, a.updated_at, a.tag_list, a.user_id, count(af.id) as favorites_count FROM article a left join article_favorite af on a.id = af.article_id",
    );
    let mut params: Vec<String> = Vec::new();
    let ghost mut pexp = Seq::<Seq<char>>::empty();
    proof {
        assert(str_views(params@) =~= pexp);
    }
    let mut first = true;
    match &q.author {
        Some(name) => {
            if !name.as_str().is_empty() {
                sql.append(" where ");
                sql.append("a.user_id in (select id from user where username = ?)");
                params.push(name.clone());
                first = false;
                proof {
                    pexp = pexp.push(name@);
                    assert(str_views(params@) =~= pexp);
                }
            }
        },
        None => {},
    }
    match &q.tag {
        Some(name) => {
            if !name.as_str().is_empty() {
                if first {
                    sql.append(" where ");
                } else {
                    sql.append(" and ");
                }
                sql.append("a.id in (select article_id from tag where name = ?)");
                params.push(name.clone());
                first = false;
                proof {
                    pexp = pexp.push(name@);
                    assert(str_views(params@) =~= pexp);
                }
            }
        },
        None => {},
    }
    match &q.favorited {
        Some(name) => {
            if !name.as_str().is_empty() {
                if first {
                    sql.append(" where ");
                } else {
                    sql.append(" and ");
                }
                sql.append(
                    "a.id in (select article_id from article_favorite af join user on af.user_id = user.id where user.username = ?)",
                );
                params.push(name.clone());
                first = false;
                proof {
                    pexp = pexp.push(name@);
                    assert(str_views(params@) =~= pexp);
                }
            }
        },
        None => {},
    }
    match &q.feed_user_id {
        Some(fid) => {
            if first {
                sql.append(" where ");
            } else {
                sql.append(" and ");
            }
            sql.append(
                "a.user_id in (select uf.followee_user_id from user_follow uf join user on uf.follower_user_id = user.id where user.id = ?)",
            );
            let fid_text = i64_to_string(*fid);
            params.push(fid_text);
            proof {
                pexp = pexp.push(dec_str_signed(*fid as int));
                assert(str_views(params@) =~= pexp);
            }
        },
        None => {},
    }
    sql.append(" group by a.id order by a.id desc limit ?, ?");
    let off: u64 = match &q.offset {
        Some(v) => if *v < 0 {
            0
        } else {
            *v as u64
        },
        None => 0,
    };
    let lim: u64 = match &q.limit {
        Some(v) => if *v < 0 {
            0
        } else {
            *v as u64
        },
        None => 20,
    };
    let off_text = u64_to_string(off);
    params.push(off_text);
    let lim_text = u64_to_string(lim);
    params.push(lim_text);
    proof {
        pexp = pexp.push(dec_str(q.spec_offset())).push(dec_str(q.spec_limit()));
        assert(str_views(params@) =~= pexp);
        assert(str_views(params@) == article_query_params(*q));
        assert(sql@ == article_query_sql(*q));
    }
    CompiledQuery { sql, params }
}

/// The text of an article update for the present fields: a fresh slug
/// accompanies a new title, and the row is addressed by slug and owner.
pub open spec fn article_update_sql(form: ArticleUpdateForm) -> Seq<char> {
    let s0 = "update article set "@;
    let s1 = if form.title is Some {
        s0 + "title = ?, slug = ?"@
    } else {
        s0
    };
    let s2 = if form.body is Some {
        s1 + (if form.title is Some {
            ", body = ?"@
        } else {
            "body = ?"@
        })
    } else {
        s1
    };
    let s3 = if form.description is Some {
        s2 + (if form.title is Some || form.body is Some {
            ", description = ?"@
        } else {
            "description = ?"@
        })
    } else {
        s2
    };
    s3 + " where slug = ? and user_id = ?"@
}

/// The bound values of an article update, in placeholder order.
pub open spec fn article_update_params(form: ArticleUpdateForm, slug: Seq<char>, user_id: i64) -> Seq<
    Seq<char>,
> {
    let p0 = Seq::<Seq<char>>::empty();
    let p1 = if form.title is Some {
        p0.push(opt_str_view(form.title)).push(slug_of(opt_str_view(form.title)))
    } else {
        p0
    };
    let p2 = if form.body is Some {
        p1.push(opt_str_view(form.body))
    } else {
        p1
    };
    let p3 = if form.description is Some {
        p2.push(opt_str_view(form.description))
    } else {
        p2
    };
    p3.push(slug).push(dec_str_signed(user_id as int))
}

/// Compiles an article update addressed by slug and owning user. `None`
/// where no field is set: there is nothing to update then, and no
/// statement is emitted.
pub fn compile_article_update(user_id: i64, slug: &String, form: &ArticleUpdateForm) -> (r: Option<
    CompiledQuery,
>)
    ensures
        r is Some <==> (form.title is Some || form.body is Some || form.description is Some),
        r matches Some(c) ==> c.sql@ == article_update_sql(*form) && str_views(c.params@)
            == article_update_params(*form, slug@, user_id),
{
    match (&form.title, &form.body, &form.description) {
        (None, None, None) => {
            return None;
        },
        _ => {},
    }
    let mut sql = String::new();
    sql.append("update article set ");
    let mut params: Vec<String> = Vec::new();
    let ghost mut pexp = Seq::<Seq<char>>::empty();
    proof {
        assert(str_views(params@) =~= pexp);
    }
    match &form.title {
        Some(title) => {
            sql.append("title = ?, slug = ?");
            let fresh_slug = slugify_title(title.as_str());
            params.push(title.clone());
            params.push(fresh_slug);
            proof {
                pexp = pexp.push(title@).push(slug_of(title@));
                assert(str_views(params@) =~= pexp);
            }
        },
        None => {},
    }
    match &form.body {
        Some(body) => {
            if form.title.is_some() {
                sql.append(", body = ?");
            } else {
                sql.append("body = ?");
            }
            params.push(body.clone());
            proof {
                pexp = pexp.push(body@);
                assert(str_views(params@) =~= pexp);
            }
        },
        None => {},
    }
    match &form.description {
        Some(description) => {
            if form.title.is_some() || form.body.is_some() {
                sql.append(", description = ?");
            } else {
                sql.append("description = ?");
            }
            params.push(description.clone());
            proof {
                pexp = pexp.push(description@);
                assert(str_views(params@) =~= pexp);
            }
        },
        None => {},
    }
    sql.append(" where slug = ? and user_id = ?");
    params.push(slug.clone());
    let id_text = i64_to_string(user_id);
    params.push(id_text);
    proof {
        pexp = pexp.push(slug@).push(dec_str_signed(user_id as int));
        assert(str_views(params@) =~= pexp);
        assert(str_views(params@) == article_update_params(*form, slug@, user_id));
        assert(sql@ == article_update_sql(*form));
    }
    Some(CompiledQuery { sql, params })
}

/// The text of a user update for the present fields, the row addressed by
/// id.
pub open spec fn user_update_sql(form: UserUpdateForm) -> Seq<char> {
    let s0 = "UPDATE user SET "@;
    let s1 = if form.username is Some {
        s0 + "username = ?"@
    } else {
        s0
    };
    let s2 = if form.email is Some {
        s1 + (if form.username is Some {
            ", email = ?"@
        } else {
            "email = ?"@
        })
    } else {
        s1
    };
    let s3 = if form.password is Some {
        s2 + (if form.username is Some || form.email is Some {
            ", password = ?"@
        } else {
            "password = ?"@
        })
    } else {
        s2
    };
    let s4 = if form.bio is Some {
        s3 + (if form.username is Some || form.email is Some || form.password is Some {
            ", bio = ?"@
        } else {
            "bio = ?"@
        })
    } else {
        s3
    };
    let s5 = if form.image is Some {
        s4 + (if form.username is Some || form.email is Some || form.password is Some
            || form.bio is Some {
            ", image = ?"@
        } else {
            "image = ?"@
        })
    } else {
        s4
    };
    s5 + " WHERE id = ?"@
}

/// The bound values of a user update, in placeholder order; a present
/// password is bound as its bcrypt hash `hashed`, never in the clear.
pub open spec fn user_update_params(form: UserUpdateForm, hashed: Seq<char>, id: i64) -> Seq<
    Seq<char>,
> {
    let p0 = Seq::<Seq<char>>::empty();
    let p1 = if form.username is Some {
        p0.push(opt_str_view(form.username))
    } else {
        p0
    };
    let p2 = if form.email is Some {
        p1.push(opt_str_view(form.email))
    } else {
        p1
    };
    let p3 = if form.password is Some {
        p2.push(hashed)
    } else {
        p2
    };
    let p4 = if form.bio is Some {
        p3.push(opt_str_view(form.bio))
    } else {
        p3
    };
    let p5 = if form.image is Some {
        p4.push(opt_str_view(form.image))
    } else {
        p4
    };
    p5.push(dec_str_signed(id as int))
}

/// Compiles a user update addressed by id. A present password is hashed
/// before it is bound. `None` where no field is set.
pub fn compile_user_update(id: i64, form: &UserUpdateForm) -> (r: Option<CompiledQuery>)
    ensures
        r is Some <==> (form.username is Some || form.email is Some || form.password is Some
            || form.bio is Some || form.image is Some),
        r matches Some(c) ==> c.sql@ == user_update_sql(*form) && (exists|h: Seq<char>|
            str_views(c.params@) == #[trigger] user_update_params(*form, h, id) && (
            form.password matches Some(p) ==> bcrypt_matches(p@, h))),
{
    match (&form.username, &form.email, &form.password, &form.bio, &form.image) {
        (None, None, None, None, None) => {
            return None;
        },
        _ => {},
    }
    let mut sql = String::new();
    sql.append("UPDATE user SET ");
    let mut params: Vec<String> = Vec::new();
    let ghost mut pexp = Seq::<Seq<char>>::empty();
    let ghost mut hashed_view = Seq::<char>::empty();
    proof {
        assert(str_views(params@) =~= pexp);
    }
    match &form.username {
        Some(username) => {
            sql.append("username = ?");
            params.push(username.clone());
            proof {
                pexp = pexp.push(username@);
                assert(str_views(params@) =~= pexp);
            }
        },
        None => {},
    }
    match &form.email {
        Some(email) => {
            if form.username.is_some() {
                sql.append(", email = ?");
            } else {
                sql.append("email = ?");
            }
            params.push(email.clone());
            proof {
                pexp = pexp.push(email@);
                assert(str_views(params@) =~= pexp);
            }
        },
        None => {},
    }
    match &form.password {
        Some(password) => {
            if form.username.is_some() || form.email.is_some() {
                sql.append(", password = ?");
            } else {
                sql.append("password = ?");
            }
            let hashed = encrypt_password(password.clone());
            proof {
                hashed_view = hashed@;
                pexp = pexp.push(hashed@);
            }
            params.push(hashed);
            proof {
                assert(str_views(params@) =~= pexp);
            }
        },
        None => {},
    }
    match &form.bio {
        Some(bio) => {
            if form.username.is_some() || form.email.is_some() || form.password.is_some() {
                sql.append(", bio = ?");
            } else {
                sql.append("bio = ?");
            }
            params.push(bio.clone());
            proof {
                pexp = pexp.push(bio@);
                assert(str_views(params@) =~= pexp);
            }
        },
        None => {},
    }
    match &form.image {
        Some(image) => {
            if form.username.is_some() || form.email.is_some() || form.password.is_some()
                || form.bio.is_some() {
                sql.append(", image = ?");
            } else {
                sql.append("image = ?");
            }
            params.push(image.clone());
            proof {
                pexp = pexp.push(image@);
                assert(str_views(params@) =~= pexp);
            }
        },
        None => {},
    }
    sql.append(" WHERE id = ?");
    let id_text = i64_to_string(id);
    params.push(id_text);
    proof {
        pexp = pexp.push(dec_str_signed(id as int));
        assert(str_views(params@) =~= pexp);
        assert(str_views(params@) == user_update_params(*form, hashed_view, id));
        assert(sql@ == user_update_sql(*form));
    }
    Some(CompiledQuery { sql, params })
}

} // verus!
