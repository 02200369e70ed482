use realworld_rust_actix_web::article::{ArticleEntity, ArticleFavoriteEntity, ArticleQuery};
use realworld_rust_actix_web::models::TagEntity;
use realworld_rust_actix_web::store::{
    select_article_favorite, select_articles_by_query, select_follow_by_user, Database,
};
use realworld_rust_actix_web::timefmt::Timestamp;
use realworld_rust_actix_web::user::{UserEntity, UserFollowEntity};

fn ts() -> Timestamp {
    Timestamp { year: 2024, month: 1, day: 1, hour: 0, minute: 0, second: 0, millisecond: 0 }
}

fn article(id: i64, user_id: i64, tag_list: &str) -> ArticleEntity {
    ArticleEntity {
        id,
        title: format!("title-{}", id),
        slug: format!("slug-{}", id),
        body: "body".to_string(),
        description: "desc".to_string(),
        created_at: ts(),
        updated_at: ts(),
        tag_list: tag_list.to_string(),
        user_id,
        favorites_count: 0,
    }
}

fn user(id: i64, name: &str) -> UserEntity {
    UserEntity {
        id,
        username: name.to_string(),
        email: format!("{}@example.com", name),
        password: "hash".to_string(),
        image: None,
        bio: None,
    }
}

fn tag(id: i64, name: &str, article_id: i64) -> TagEntity {
    TagEntity { id, name: name.to_string(), article_id, user_id: 1 }
}

fn query() -> ArticleQuery {
    ArticleQuery {
        tag: None,
        author: None,
        favorited: None,
        limit: None,
        offset: None,
        feed_user_id: None,
    }
}

fn three_tagged_articles() -> Database {
    Database {
        users: vec![user(1, "ann"), user(2, "bob")],
        articles: vec![
            article(1, 1, "[\"x\"]"),
            article(2, 1, "[\"y\"]"),
            article(3, 2, "[\"x\",\"y\"]"),
        ],
        favorites: vec![],
        tags: vec![tag(1, "x", 1), tag(2, "y", 2), tag(3, "x", 3), tag(4, "y", 3)],
        follows: vec![],
    }
}

fn ids(rows: &[ArticleEntity]) -> Vec<i64> {
    rows.iter().map(|a| a.id).collect()
}

#[test]
fn scenario_tag_filter_returns_tagged_newest_first() {
    // Three articles tagged ["x"], ["y"], ["x","y"]: tag = "x" yields
    // exactly the third and the first, newest first.
    let db = three_tagged_articles();
    let q = ArticleQuery { tag: Some("x".to_string()), ..query() };
    let rows = select_articles_by_query(&db, &q);
    assert_eq!(ids(&rows), vec![3, 1]);
}

#[test]
fn no_predicates_returns_most_recent_twenty() {
    let mut db = three_tagged_articles();
    db.articles = (1..=25).map(|id| article(id, 1, "[]")).collect();
    let rows = select_articles_by_query(&db, &query());
    assert_eq!(rows.len(), 20);
    assert_eq!(rows[0].id, 25);
    assert_eq!(rows[19].id, 6);
}

#[test]
fn offset_and_limit_page_the_descending_order() {
    let mut db = three_tagged_articles();
    db.articles = (1..=25).map(|id| article(id, 1, "[]")).collect();
    let q = ArticleQuery { offset: Some(2), limit: Some(3), ..query() };
    let rows = select_articles_by_query(&db, &q);
    assert_eq!(ids(&rows), vec![23, 22, 21]);
}

#[test]
fn negative_limit_and_offset_are_clamped() {
    let db = three_tagged_articles();
    let q = ArticleQuery { limit: Some(-5), ..query() };
    assert!(select_articles_by_query(&db, &q).is_empty());
    let q = ArticleQuery { offset: Some(-5), ..query() };
    assert_eq!(ids(&select_articles_by_query(&db, &q)), vec![3, 2, 1]);
}

#[test]
fn tag_and_author_compose_as_intersection() {
    let db = three_tagged_articles();
    // Articles tagged "x": ids 1 (by ann) and 3 (by bob).
    let q = ArticleQuery {
        tag: Some("x".to_string()),
        author: Some("ann".to_string()),
        ..query()
    };
    assert_eq!(ids(&select_articles_by_query(&db, &q)), vec![1]);
    let q = ArticleQuery {
        tag: Some("x".to_string()),
        author: Some("bob".to_string()),
        ..query()
    };
    assert_eq!(ids(&select_articles_by_query(&db, &q)), vec![3]);
}

#[test]
fn empty_predicate_string_restricts_nothing() {
    let db = three_tagged_articles();
    let q = ArticleQuery { tag: Some(String::new()), author: Some(String::new()), ..query() };
    assert_eq!(ids(&select_articles_by_query(&db, &q)), vec![3, 2, 1]);
}

#[test]
fn favorited_by_unknown_username_yields_empty_result() {
    let db = three_tagged_articles();
    let q = ArticleQuery { favorited: Some("nobody".to_string()), ..query() };
    assert!(select_articles_by_query(&db, &q).is_empty());
}

#[test]
fn favorites_count_counts_distinct_users() {
    let mut db = three_tagged_articles();
    db.favorites = vec![
        ArticleFavoriteEntity { user_id: 1, article_id: 3 },
        ArticleFavoriteEntity { user_id: 2, article_id: 3 },
        ArticleFavoriteEntity { user_id: 1, article_id: 1 },
    ];
    let rows = select_articles_by_query(&db, &query());
    assert_eq!(ids(&rows), vec![3, 2, 1]);
    assert_eq!(rows[0].favorites_count, 2);
    assert_eq!(rows[1].favorites_count, 0);
    assert_eq!(rows[2].favorites_count, 1);
}

#[test]
fn favorited_filter_matches_favoriting_username() {
    let mut db = three_tagged_articles();
    db.favorites = vec![
        ArticleFavoriteEntity { user_id: 1, article_id: 2 },
        ArticleFavoriteEntity { user_id: 2, article_id: 3 },
    ];
    let q = ArticleQuery { favorited: Some("ann".to_string()), ..query() };
    assert_eq!(ids(&select_articles_by_query(&db, &q)), vec![2]);
}

#[test]
fn feed_restricts_to_followed_authors() {
    let mut db = three_tagged_articles();
    // User 2 follows user 1; user 1 wrote articles 1 and 2.
    db.follows = vec![UserFollowEntity { follower_user_id: 2, followee_user_id: 1 }];
    let q = query().for_feed(2);
    assert_eq!(ids(&select_articles_by_query(&db, &q)), vec![2, 1]);
    let q = query().for_feed(1);
    assert!(select_articles_by_query(&db, &q).is_empty());
}

#[test]
fn favorite_point_lookup() {
    let mut db = three_tagged_articles();
    db.favorites = vec![ArticleFavoriteEntity { user_id: 1, article_id: 3 }];
    assert!(select_article_favorite(&db, 1, 3));
    assert!(!select_article_favorite(&db, 2, 3));
    assert!(!select_article_favorite(&db, 1, 1));
}

#[test]
fn follow_point_lookup() {
    let mut db = three_tagged_articles();
    db.follows = vec![UserFollowEntity { follower_user_id: 2, followee_user_id: 1 }];
    assert!(select_follow_by_user(&db, 2, 1));
    assert!(!select_follow_by_user(&db, 1, 2));
}
