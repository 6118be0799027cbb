use blog_api::credential::verify_password;
use blog_api::decimal::{format_user_id, parse_user_id};
use blog_api::entity::{hash_password, HashPasswordError, Post, User, UserError};
use blog_api::header::{is_text_header_value, strip_bearer};
use blog_api::policy::can_mutate;
use blog_api::store::Store;
use blog_api::token::{create_token, subject_user_id, validate_token, TokenError, TOKEN_TTL_SECS};
use blog_api::validation::{
    auth_post_validation, posts_post_id_put_validation, posts_post_validation,
    users_post_validation, Field, FieldError, Problem,
};
use blog_api::models::{self, Auth, PostsPostRequest, UsersPostRequest};
use blog_api::responses::{PostsPostIdDeleteResponse, Rejection, UsersPostResponse};
use blog_api::value_object::parse_post_id;

const SECRET: &[u8] = b"secret";

#[test]
fn format_user_id_renders_decimal() {
    assert_eq!(format_user_id(0), "0");
    assert_eq!(format_user_id(1), "1");
    assert_eq!(format_user_id(42), "42");
    assert_eq!(format_user_id(-7), "-7");
    assert_eq!(format_user_id(i64::MAX), "9223372036854775807");
    assert_eq!(format_user_id(i64::MIN), "-9223372036854775808");
}

#[test]
fn parse_user_id_reads_decimal() {
    assert_eq!(parse_user_id("0"), Some(0));
    assert_eq!(parse_user_id("17"), Some(17));
    assert_eq!(parse_user_id("-17"), Some(-17));
    assert_eq!(parse_user_id("9223372036854775807"), Some(i64::MAX));
    assert_eq!(parse_user_id("-9223372036854775808"), Some(i64::MIN));
    assert_eq!(parse_user_id("9223372036854775808"), None);
    assert_eq!(parse_user_id("-9223372036854775809"), None);
    assert_eq!(parse_user_id(""), None);
    assert_eq!(parse_user_id("-"), None);
    assert_eq!(parse_user_id("12a"), None);
    assert_eq!(parse_user_id(" 1"), None);
    assert_eq!(parse_user_id("+1"), Some(1));
    assert_eq!(parse_user_id("+9223372036854775807"), Some(i64::MAX));
    assert_eq!(parse_user_id("+9223372036854775808"), None);
    assert_eq!(parse_user_id("+"), None);
    assert_eq!(parse_user_id("+-1"), None);
    assert_eq!(parse_user_id("-+1"), None);
}

#[test]
fn user_id_text_round_trips() {
    for n in [0i64, 1, 9, 10, 99, 100, 12345, -1, -10, i64::MAX, i64::MIN] {
        assert_eq!(parse_user_id(&format_user_id(n)), Some(n));
    }
}

#[test]
fn strip_bearer_removes_the_prefix() {
    assert_eq!(strip_bearer(b"Bearer abc.def.ghi"), b"abc.def.ghi".to_vec());
    assert_eq!(strip_bearer(b""), Vec::<u8>::new());
    assert_eq!(strip_bearer(b"Bearer "), Vec::<u8>::new());
}

#[test]
fn strip_bearer_passes_a_value_without_prefix_through() {
    assert_eq!(strip_bearer(b"abc.def.ghi"), b"abc.def.ghi".to_vec());
    assert_eq!(strip_bearer(b"Bearer"), b"Bearer".to_vec());
    assert_eq!(strip_bearer(b"bearer abc"), b"bearer abc".to_vec());
}

#[test]
fn strip_bearer_removes_every_occurrence() {
    assert_eq!(strip_bearer(b"xBearer y"), b"xy".to_vec());
    assert_eq!(strip_bearer(b"Bearer Bearer z"), b"z".to_vec());
    assert_eq!(strip_bearer(b"a Bearer b Bearer c"), b"a b c".to_vec());
    assert_eq!(strip_bearer(b"BeBearer arer x"), b"Bearer x".to_vec());
}

#[test]
fn header_value_text_check() {
    assert!(is_text_header_value(b"Bearer abc"));
    assert!(is_text_header_value(b""));
    assert!(is_text_header_value(b"a\tb ~"));
    assert!(!is_text_header_value(b"a\x01b"));
    assert!(!is_text_header_value(b"a\x7fb"));
    assert!(!is_text_header_value("Bearer \u{e9}".as_bytes()));
    assert!(!is_text_header_value(b"a\nb"));
}

#[test]
fn hash_then_verify_same_password() {
    let hash = hash_password("secret123".to_string()).unwrap();
    assert!(hash.starts_with("$argon2"));
    assert!(!hash.contains("secret123"));
    assert!(verify_password("secret123", &hash));
}

#[test]
fn verify_rejects_other_password() {
    let hash = hash_password("secret123".to_string()).unwrap();
    assert!(!verify_password("secret124", &hash));
    assert!(!verify_password("", &hash));
    assert!(!verify_password("Secret123", &hash));
}

#[test]
fn verify_treats_malformed_hash_as_no_match() {
    assert!(!verify_password("secret123", ""));
    assert!(!verify_password("secret123", "secret123"));
    assert!(!verify_password("secret123", "$argon2id$garbage"));
}

#[test]
fn hashing_salts_each_time() {
    let a = hash_password("pw".to_string()).unwrap();
    let b = hash_password("pw".to_string()).unwrap();
    assert_ne!(a, b);
    assert!(verify_password("pw", &a));
    assert!(verify_password("pw", &b));
}

#[test]
fn user_new_hashes_the_password() {
    let u = User::new(3, "A".to_string(), "a@x.com".to_string(), "pw".to_string()).unwrap();
    assert_eq!(u.id, 3);
    assert_eq!(u.name, "A");
    assert_eq!(u.email, "a@x.com");
    assert_ne!(u.password, "pw");
    assert!(verify_password("pw", &u.password));
}

#[test]
fn error_messages() {
    assert_eq!(HashPasswordError::HashPassword.message(), "Failed to hash password");
    assert_eq!(UserError::CreateUser.message(), "Failed to create user");
}

#[test]
fn issued_token_verifies_to_its_subject() {
    let now = 1_700_000_000u64;
    let token = create_token(SECRET, 5, now);
    let claims = validate_token(SECRET, token.as_bytes(), now).unwrap();
    assert_eq!(claims.sub, "5");
    assert_eq!(claims.exp, now + TOKEN_TTL_SECS);
    assert_eq!(subject_user_id(&claims), Some(5));
    let later = validate_token(SECRET, token.as_bytes(), now + TOKEN_TTL_SECS - 1).unwrap();
    assert_eq!(subject_user_id(&later), Some(5));
}

#[test]
fn token_expires_after_the_window() {
    let now = 1_700_000_000u64;
    let token = create_token(SECRET, 5, now);
    assert_eq!(TOKEN_TTL_SECS, 300);
    assert_eq!(validate_token(SECRET, token.as_bytes(), now + 300).err(), Some(TokenError::Expired));
    assert_eq!(validate_token(SECRET, token.as_bytes(), now + 10_000).err(), Some(TokenError::Expired));
}

#[test]
fn token_expiry_saturates() {
    let token = create_token(SECRET, 1, u64::MAX - 10);
    let claims = validate_token(SECRET, token.as_bytes(), u64::MAX - 10).unwrap();
    assert_eq!(claims.exp, u64::MAX);
}

#[test]
fn token_with_other_secret_has_bad_signature() {
    let token = create_token(SECRET, 5, 100);
    assert_eq!(validate_token(b"other", token.as_bytes(), 100).err(), Some(TokenError::BadSignature));
}

#[test]
fn tampered_token_is_refused() {
    let token = create_token(SECRET, 5, 100);
    let other = create_token(SECRET, 6, 100);
    let parts: Vec<&str> = token.split('.').collect();
    let other_parts: Vec<&str> = other.split('.').collect();
    let forged = format!("{}.{}.{}", parts[0], other_parts[1], parts[2]);
    assert_eq!(validate_token(SECRET, forged.as_bytes(), 100).err(), Some(TokenError::BadSignature));
}

#[test]
fn garbage_token_is_malformed() {
    assert_eq!(validate_token(SECRET, b"abc", 100).err(), Some(TokenError::Malformed));
    assert_eq!(validate_token(SECRET, b"", 100).err(), Some(TokenError::Malformed));
    assert_eq!(validate_token(SECRET, b"a.b.c", 100).err(), Some(TokenError::Malformed));
}

#[test]
fn negative_subject_round_trips() {
    let token = create_token(SECRET, -3, 100);
    let claims = validate_token(SECRET, token.as_bytes(), 100).unwrap();
    assert_eq!(claims.sub, "-3");
    assert_eq!(subject_user_id(&claims), Some(-3));
}

#[test]
fn post_id_parses_canonical_text() {
    assert_eq!(
        parse_post_id("67e55044-10b1-426f-9247-bb680e5fe0c8"),
        Some(0x67e5504410b1426f9247bb680e5fe0c8)
    );
    assert_eq!(parse_post_id("67e5504410b1426f9247bb680e5fe0c8"), Some(0x67e5504410b1426f9247bb680e5fe0c8));
    assert_eq!(parse_post_id("not-a-uuid"), None);
    assert_eq!(parse_post_id(""), None);
}

#[test]
fn store_assigns_and_finds_users() {
    let mut store = Store::new();
    assert_eq!(store.user_count(), 0);
    let first = store.create_user("n".to_string(), "a@x.com".to_string(), "h1".to_string()).unwrap();
    assert_eq!((first.id, first.name.as_str(), first.password.as_str()), (1, "n", "h1"));
    let second = store.create_user("m".to_string(), "b@x.com".to_string(), "h2".to_string()).unwrap();
    assert_eq!(second.id, 2);
    let third = store.create_user("o".to_string(), "a@x.com".to_string(), "h3".to_string()).unwrap();
    assert_eq!(third.id, 3);
    assert_eq!(store.user_count(), 3);
    assert_eq!(store.find_user_by_email(&"a@x.com".to_string()).unwrap().id, 1);
    assert_eq!(store.find_user_by_email(&"b@x.com".to_string()).unwrap().id, 2);
    assert!(store.find_user_by_email(&"c@x.com".to_string()).is_none());
}

#[test]
fn store_post_lifecycle() {
    let mut store = Store::new();
    let p = store.create_post(7, 1, "T".to_string(), "C".to_string()).unwrap();
    assert_eq!((p.id, p.user_id, p.title.as_str(), p.content.as_str()), (7, 1, "T", "C"));
    assert!(store.create_post(7, 2, "X".to_string(), "Y".to_string()).is_none());
    store.create_post(8, 2, "T2".to_string(), "C2".to_string()).unwrap();
    let all = store.list_posts();
    assert_eq!(all.iter().map(|p| p.id).collect::<Vec<_>>(), vec![7, 8]);
    assert_eq!(store.find_post_by_id(8).unwrap().title, "T2");
    assert!(store.find_post_by_id(9).is_none());
    let u = store.update_post(7, "T'".to_string(), "C'".to_string()).unwrap();
    assert_eq!((u.id, u.user_id, u.title.as_str(), u.content.as_str()), (7, 1, "T'", "C'"));
    assert!(store.update_post(9, "a".to_string(), "b".to_string()).is_none());
    assert!(store.delete_post(7));
    assert!(!store.delete_post(7));
    assert_eq!(store.list_posts().len(), 1);
    assert!(store.find_post_by_id(7).is_none());
}

#[test]
fn deleting_missing_post_changes_nothing_in_store() {
    let mut store = Store::new();
    store.create_post(1, 1, "T".to_string(), "C".to_string()).unwrap();
    assert!(!store.delete_post(2));
    assert!(!store.delete_post(2));
    assert_eq!(store.list_posts().len(), 1);
}

#[test]
fn only_owner_can_mutate() {
    let p = Post { id: 1, user_id: 4, title: "t".to_string(), content: "c".to_string() };
    assert!(can_mutate(&p, 4));
    assert!(!can_mutate(&p, 5));
}

#[test]
fn users_body_rules() {
    let ok = users_post_validation(Some(UsersPostRequest {
        name: "A".to_string(),
        email: "a@x.com".to_string(),
        password: "secret123".to_string(),
    }));
    assert_eq!(ok.ok().unwrap().name, "A");
    let bad = users_post_validation(Some(UsersPostRequest {
        name: "".to_string(),
        email: "a@x.com".to_string(),
        password: "".to_string(),
    }));
    assert_eq!(
        bad.err().unwrap(),
        vec![
            FieldError { field: Field::Name, problem: Problem::Empty },
            FieldError { field: Field::Password, problem: Problem::Empty },
        ]
    );
    assert_eq!(
        users_post_validation(None).err().unwrap(),
        vec![FieldError { field: Field::Body, problem: Problem::Missing }]
    );
}

#[test]
fn auth_body_rules() {
    let ok = auth_post_validation(Some(Auth { email: Some("e".to_string()), password: Some("".to_string()) }));
    assert_eq!(ok.ok().unwrap(), ("e".to_string(), "".to_string()));
    let bad = auth_post_validation(Some(Auth { email: None, password: None }));
    assert_eq!(
        bad.err().unwrap(),
        vec![
            FieldError { field: Field::Email, problem: Problem::Missing },
            FieldError { field: Field::Password, problem: Problem::Missing },
        ]
    );
    assert_eq!(
        auth_post_validation(None).err().unwrap(),
        vec![FieldError { field: Field::Body, problem: Problem::Missing }]
    );
}

#[test]
fn post_body_rules() {
    let ok = posts_post_validation(Some(PostsPostRequest { title: "T".to_string(), content: "C".to_string() }));
    assert_eq!(ok.ok().unwrap().content, "C");
    let bad = posts_post_validation(Some(PostsPostRequest { title: "T".to_string(), content: "".to_string() }));
    assert_eq!(bad.err().unwrap(), vec![FieldError { field: Field::Content, problem: Problem::Empty }]);
    assert!(posts_post_validation(None).is_err());
}

#[test]
fn update_body_rules() {
    let body = |t: Option<&str>, c: Option<&str>| {
        Some(models::Post { id: None, user_id: None, title: t.map(String::from), content: c.map(String::from) })
    };
    assert_eq!(
        posts_post_id_put_validation(body(Some("T"), Some("C"))).ok().unwrap(),
        ("T".to_string(), "C".to_string())
    );
    assert_eq!(
        posts_post_id_put_validation(body(None, Some(""))).err().unwrap(),
        vec![
            FieldError { field: Field::Title, problem: Problem::Missing },
            FieldError { field: Field::Content, problem: Problem::Empty },
        ]
    );
    assert_eq!(
        posts_post_id_put_validation(None).err().unwrap(),
        vec![FieldError { field: Field::Body, problem: Problem::Missing }]
    );
}

#[test]
fn status_codes() {
    assert_eq!(Rejection::MissingAuthorization.status(), 400);
    assert_eq!(Rejection::InvalidAuthorization.status(), 400);
    assert_eq!(Rejection::InvalidPostId.status(), 400);
    assert_eq!(Rejection::InvalidBody(vec![]).status(), 400);
    assert_eq!(Rejection::Internal.status(), 500);
    assert_eq!(PostsPostIdDeleteResponse::Status204_NoContent.status(), 204);
    assert_eq!(PostsPostIdDeleteResponse::Status401_Unauthorized.status(), 401);
    assert_eq!(PostsPostIdDeleteResponse::Status404_NotFound.status(), 404);
    assert_eq!(UsersPostResponse::Status400.status(), 400);
}

#[test]
fn issued_token_is_compact() {
    let token = create_token(SECRET, 12, 100);
    assert!(!token.is_empty());
    assert_eq!(token.split('.').count(), 3);
    assert!(token.bytes().all(|b| b.is_ascii_alphanumeric() || b == b'-' || b == b'_' || b == b'.'));
}

#[test]
fn any_password_content_is_hashed() {
    let long = "x".repeat(10_000);
    for pw in ["", "p\u{e4}ss w\u{f6}rd", "Bearer x", long.as_str()] {
        let hash = hash_password(pw.to_string()).unwrap();
        assert_ne!(hash, pw);
        assert!(verify_password(pw, &hash));
    }
    let u = User::new(1, "n".to_string(), "e".to_string(), "".to_string());
    assert!(u.is_ok());
}
