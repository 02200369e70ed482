use realworld_rust_actix_web::accounts::{account_response, login_response};
use realworld_rust_actix_web::article::{to_article_response, ArticleEntity};
use realworld_rust_actix_web::comment::{to_comment_response, CommentEntity};
use realworld_rust_actix_web::models::to_profile_response;
use realworld_rust_actix_web::numfmt::{dec_pad_string, i64_to_string, u64_to_string};
use realworld_rust_actix_web::strutil::{sort_strings, str_le};
use realworld_rust_actix_web::timefmt::Timestamp;
use realworld_rust_actix_web::token::{verify, SigningConfig};
use realworld_rust_actix_web::user::{to_author, UserEntity};
use realworld_rust_actix_web::utils::{encrypt_password, verify_password};
use realworld_rust_actix_web::ServiceError;

fn secret() -> SigningConfig {
    SigningConfig { secret: b"realworld".to_vec() }
}

fn ts(ms: u16) -> Timestamp {
    Timestamp { year: 2024, month: 1, day: 5, hour: 7, minute: 9, second: 3, millisecond: ms }
}

fn sample_user() -> UserEntity {
    UserEntity {
        id: 42,
        username: "ann".to_string(),
        email: "ann@example.com".to_string(),
        password: "stored-hash".to_string(),
        image: Some("img".to_string()),
        bio: Some("bio".to_string()),
    }
}

#[test]
fn timestamps_render_with_millisecond_precision_and_z() {
    assert_eq!(ts(45).format(), "2024-01-05T07:09:03.045Z");
    assert_eq!(ts(0).format(), "2024-01-05T07:09:03.000Z");
    let t = Timestamp { year: 999, month: 12, day: 31, hour: 23, minute: 59, second: 59, millisecond: 999 };
    assert_eq!(t.format(), "0999-12-31T23:59:59.999Z");
}

#[test]
fn decimal_renderings() {
    assert_eq!(u64_to_string(0), "0");
    assert_eq!(u64_to_string(907), "907");
    assert_eq!(i64_to_string(-42), "-42");
    assert_eq!(i64_to_string(7), "7");
    assert_eq!(i64_to_string(i64::MIN), "-9223372036854775808");
    assert_eq!(dec_pad_string(7, 3), "007");
    assert_eq!(dec_pad_string(2024, 4), "2024");
}

#[test]
fn string_sort_is_lexicographic_ascending() {
    let sorted = sort_strings(vec!["b".to_string(), "ab".to_string(), "a".to_string()]);
    assert_eq!(sorted, vec!["a".to_string(), "ab".to_string(), "b".to_string()]);
    assert!(str_le("a", "ab"));
    assert!(str_le("ab", "b"));
    assert!(!str_le("b", "ab"));
    assert!(str_le("", "a"));
    assert!(str_le("same", "same"));
}

#[test]
fn article_response_shapes_row_author_and_tags() {
    let a = ArticleEntity {
        id: 3,
        title: "T".to_string(),
        slug: "t".to_string(),
        body: "B".to_string(),
        description: "D".to_string(),
        created_at: ts(1),
        updated_at: ts(2),
        tag_list: "[\"y\",\"x\"]".to_string(),
        user_id: 42,
        favorites_count: 5,
    };
    let r = to_article_response(a, sample_user(), true);
    assert_eq!(r.title, "T");
    assert_eq!(r.slug, "t");
    assert_eq!(r.body, "B");
    assert_eq!(r.description, "D");
    assert_eq!(r.created_at, "2024-01-05T07:09:03.001Z");
    assert_eq!(r.updated_at, "2024-01-05T07:09:03.002Z");
    assert!(r.favorited);
    assert_eq!(r.favorites_count, 5);
    assert_eq!(r.tag_list, vec!["x".to_string(), "y".to_string()]);
    assert_eq!(r.author.username, "ann");
    assert_eq!(r.author.token, None);
}

#[test]
fn comment_response_shapes_row_and_author() {
    let c = CommentEntity {
        id: 8,
        body: "hi".to_string(),
        created_at: ts(1),
        updated_at: ts(2),
        article_id: 3,
        user_id: 42,
    };
    let r = to_comment_response(c, sample_user());
    assert_eq!(r.id, 8);
    assert_eq!(r.body, "hi");
    assert_eq!(r.created_at, "2024-01-05T07:09:03.001Z");
    assert_eq!(r.author.email, "ann@example.com");
}

#[test]
fn profile_response_carries_follow_state() {
    let r = to_profile_response(sample_user(), true);
    assert_eq!(r.username, "ann");
    assert_eq!(r.bio, Some("bio".to_string()));
    assert_eq!(r.image, Some("img".to_string()));
    assert!(r.following);
}

#[test]
fn author_shape_has_no_token() {
    let r = to_author(sample_user());
    assert_eq!(r.username, "ann");
    assert_eq!(r.token, None);
    assert_eq!(r.bio, Some("bio".to_string()));
}

#[test]
fn service_error_wraps_one_message() {
    let e = ServiceError::new("oops".to_string());
    assert_eq!(e.errors.body, vec!["oops".to_string()]);
}

#[test]
fn account_response_carries_a_verifiable_token() {
    let now: u64 = 1_700_000_000;
    let r = account_response(sample_user(), &secret(), now);
    assert_eq!(r.username, "ann");
    assert_eq!(r.email, "ann@example.com");
    assert_eq!(r.bio, None);
    assert_eq!(r.image, None);
    let token = r.token.expect("token set");
    let claims = verify(&secret(), &token, now + 1).expect("fresh token verifies");
    assert_eq!(claims.sub, 42);
    assert_eq!(claims.exp, now + 7200);
}

#[test]
fn login_accepts_matching_password_only() {
    let now: u64 = 1_700_000_000;
    let mut user = sample_user();
    user.password = encrypt_password("hunter2".to_string());
    let denied = login_response(user.clone(), "wrong".to_string(), &secret(), now);
    let e = denied.err().expect("wrong password rejected");
    assert_eq!(e.errors.body, vec!["invalid email or password".to_string()]);
    let granted = login_response(user, "hunter2".to_string(), &secret(), now);
    let r = granted.ok().expect("matching password accepted");
    assert_eq!(r.username, "ann");
    let claims = verify(&secret(), &r.token.expect("token set"), now + 1).expect("verifies");
    assert_eq!(claims.sub, 42);
}

#[test]
fn password_hashing_round_trip() {
    let h = encrypt_password("secret".to_string());
    assert!(verify_password("secret".to_string(), &h));
    assert!(!verify_password("other".to_string(), &h));
    assert!(!verify_password("secret".to_string(), "not-a-bcrypt-hash"));
}
