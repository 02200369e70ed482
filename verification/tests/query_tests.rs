use realworld_rust_actix_web::article::{make_slug, ArticleQuery, ArticleUpdateForm};
use realworld_rust_actix_web::query::{
    compile_article_query, compile_article_update, compile_user_update,
};
use realworld_rust_actix_web::user::UserUpdateForm;
use realworld_rust_actix_web::utils::verify_password;

const BASE: &str = "SELECT a.id, a.title, a.slug, a.description, a.body, a.created_at, a.updated_at, a.tag_list, a.user_id, count(af.id) as favorites_count FROM article a left join article_favorite af on a.id = af.article_id";
const TAIL: &str = " group by a.id order by a.id desc limit ?, ?";

fn query() -> ArticleQuery {
    ArticleQuery {
        tag: None,
        author: None,
        favorited: None,
        limit: None,
        offset: None,
        feed_user_id: None,
    }
}

#[test]
fn listing_without_predicates_has_defaults() {
    let c = compile_article_query(&query());
    assert_eq!(c.sql, format!("{}{}", BASE, TAIL));
    assert_eq!(c.params, vec!["0".to_string(), "20".to_string()]);
}

#[test]
fn listing_with_tag_binds_the_tag() {
    let q = ArticleQuery { tag: Some("rust".to_string()), ..query() };
    let c = compile_article_query(&q);
    assert_eq!(
        c.sql,
        format!(
            "{} where a.id in (select article_id from tag where name = ?){}",
            BASE, TAIL
        )
    );
    assert_eq!(c.params, vec!["rust".to_string(), "0".to_string(), "20".to_string()]);
}

#[test]
fn listing_with_tag_and_author_joins_with_and() {
    let q = ArticleQuery {
        tag: Some("rust".to_string()),
        author: Some("ann".to_string()),
        ..query()
    };
    let c = compile_article_query(&q);
    assert_eq!(
        c.sql,
        format!(
            "{} where a.user_id in (select id from user where username = ?) and a.id in (select article_id from tag where name = ?){}",
            BASE, TAIL
        )
    );
    assert_eq!(
        c.params,
        vec!["ann".to_string(), "rust".to_string(), "0".to_string(), "20".to_string()]
    );
}

#[test]
fn listing_with_all_predicates_binds_in_order() {
    let q = ArticleQuery {
        tag: Some("t".to_string()),
        author: Some("a".to_string()),
        favorited: Some("f".to_string()),
        limit: Some(7),
        offset: Some(3),
        feed_user_id: Some(-12),
    };
    let c = compile_article_query(&q);
    let expected = format!(
        "{}{}{}{}{}{}",
        BASE,
        " where a.user_id in (select id from user where username = ?)",
        " and a.id in (select article_id from tag where name = ?)",
        " and a.id in (select article_id from article_favorite af join user on af.user_id = user.id where user.username = ?)",
        " and a.user_id in (select uf.followee_user_id from user_follow uf join user on uf.follower_user_id = user.id where user.id = ?)",
        TAIL
    );
    assert_eq!(c.sql, expected);
    assert_eq!(
        c.params,
        vec![
            "a".to_string(),
            "t".to_string(),
            "f".to_string(),
            "-12".to_string(),
            "3".to_string(),
            "7".to_string()
        ]
    );
}

#[test]
fn listing_treats_empty_predicate_values_as_absent() {
    let q = ArticleQuery { tag: Some(String::new()), author: Some(String::new()), ..query() };
    let c = compile_article_query(&q);
    assert_eq!(c.sql, format!("{}{}", BASE, TAIL));
    assert_eq!(c.params, vec!["0".to_string(), "20".to_string()]);
}

#[test]
fn listing_clamps_negative_pagination() {
    let q = ArticleQuery { limit: Some(-1), offset: Some(-9), ..query() };
    let c = compile_article_query(&q);
    assert_eq!(c.params, vec!["0".to_string(), "0".to_string()]);
}

#[test]
fn article_update_with_no_fields_is_none() {
    let form = ArticleUpdateForm { title: None, description: None, body: None, tag_list: None };
    assert!(compile_article_update(5, &"slug".to_string(), &form).is_none());
}

#[test]
fn article_update_with_title_refreshes_the_slug() {
    let form = ArticleUpdateForm {
        title: Some("Hello World".to_string()),
        description: None,
        body: None,
        tag_list: None,
    };
    let c = compile_article_update(5, &"old-slug".to_string(), &form).expect("one field set");
    assert_eq!(
        c.sql,
        "update article set title = ?, slug = ? where slug = ? and user_id = ?"
    );
    assert_eq!(
        c.params,
        vec![
            "Hello World".to_string(),
            "hello-world".to_string(),
            "old-slug".to_string(),
            "5".to_string()
        ]
    );
}

#[test]
fn article_update_joins_fields_with_commas() {
    let form = ArticleUpdateForm {
        title: Some("T".to_string()),
        description: Some("d".to_string()),
        body: Some("b".to_string()),
        tag_list: None,
    };
    let c = compile_article_update(-3, &"s".to_string(), &form).expect("fields set");
    assert_eq!(
        c.sql,
        "update article set title = ?, slug = ?, body = ?, description = ? where slug = ? and user_id = ?"
    );
    assert_eq!(c.params.last(), Some(&"-3".to_string()));
}

#[test]
fn user_update_with_no_fields_is_none() {
    let form = UserUpdateForm { username: None, email: None, password: None, bio: None, image: None };
    assert!(compile_user_update(1, &form).is_none());
}

#[test]
fn user_update_builds_comma_joined_set_list() {
    let form = UserUpdateForm {
        username: Some("ann".to_string()),
        email: Some("ann@example.com".to_string()),
        password: None,
        bio: Some("hi".to_string()),
        image: None,
    };
    let c = compile_user_update(9, &form).expect("fields set");
    assert_eq!(c.sql, "UPDATE user SET username = ?, email = ?, bio = ? WHERE id = ?");
    assert_eq!(
        c.params,
        vec!["ann".to_string(), "ann@example.com".to_string(), "hi".to_string(), "9".to_string()]
    );
}

#[test]
fn user_update_binds_a_hash_never_the_password() {
    let form = UserUpdateForm {
        username: None,
        email: None,
        password: Some("hunter2".to_string()),
        bio: None,
        image: None,
    };
    let c = compile_user_update(4, &form).expect("password set");
    assert_eq!(c.sql, "UPDATE user SET password = ? WHERE id = ?");
    assert_eq!(c.params.len(), 2);
    let bound = &c.params[0];
    assert_ne!(bound, "hunter2");
    assert!(verify_password("hunter2".to_string(), bound));
    assert!(!verify_password("wrong".to_string(), bound));
}

#[test]
fn slug_appends_the_creation_instant() {
    assert_eq!(make_slug("Hello World", 1234), "hello-world-1234");
    assert_eq!(make_slug("Hello World", 0), "hello-world-0");
}
