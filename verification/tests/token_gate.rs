use auth_core::ApiError;
use auth_core::authz::{AccessDecision, authorize};
use auth_core::posts::ResourceStore;
use auth_core::request_auth::authenticate_request;
use auth_core::service::{login, register};
use auth_core::store::CredentialStore;
use auth_core::token::{TOKEN_LIFETIME_SECONDS, decode_token, issue_token};

const SECRET: &[u8] = b"test-signing-secret";
const NOW: i64 = 1_700_000_000;

#[test]
fn token_round_trip_before_expiry() {
    let sub = "a@x.com".to_string();
    let token = issue_token(&sub, SECRET, NOW).expect("signing");
    let claims = decode_token(&token, SECRET, NOW).expect("fresh token decodes");
    assert_eq!(claims.sub, sub);
    assert_eq!(claims.exp, NOW + TOKEN_LIFETIME_SECONDS);
}

#[test]
fn token_rejected_once_expired() {
    let sub = "a@x.com".to_string();
    let token = issue_token(&sub, SECRET, NOW).expect("signing");
    let exp = NOW + TOKEN_LIFETIME_SECONDS;
    // Valid up to the last instant before the expiry, rejected from it on.
    assert!(decode_token(&token, SECRET, exp - 1).is_ok());
    assert_eq!(decode_token(&token, SECRET, exp), Err(ApiError::AuthenticationFailure));
    assert_eq!(decode_token(&token, SECRET, exp + 1), Err(ApiError::AuthenticationFailure));
}

#[test]
fn token_is_not_the_subject() {
    let sub = "a@x.com".to_string();
    let token = issue_token(&sub, SECRET, NOW).expect("signing");
    assert_ne!(token, sub);
    // Compact serialization: header, payload and signature, dot-separated.
    assert_eq!(token.matches('.').count(), 2);
}

#[test]
fn token_signed_with_other_secret_rejected() {
    let sub = "a@x.com".to_string();
    let token = issue_token(&sub, b"another-secret", NOW).expect("signing");
    assert_eq!(decode_token(&token, SECRET, NOW), Err(ApiError::AuthenticationFailure));
}

#[test]
fn garbage_token_rejected() {
    assert_eq!(
        decode_token("not-a-token", SECRET, NOW),
        Err(ApiError::AuthenticationFailure)
    );
    assert_eq!(decode_token("", SECRET, NOW), Err(ApiError::AuthenticationFailure));
}

#[test]
fn gate_accepts_exactly_one_header() {
    let sub = "a@x.com".to_string();
    let token = issue_token(&sub, SECRET, NOW).expect("signing");
    let with_scheme = vec![format!("Bearer {token}")];
    let identity = authenticate_request(&with_scheme, SECRET, NOW).expect("valid request");
    assert_eq!(identity, sub);

    let none: Vec<String> = vec![];
    assert_eq!(authenticate_request(&none, SECRET, NOW), Err(ApiError::AuthenticationFailure));

    let two = vec![format!("Bearer {token}"), format!("Bearer {token}")];
    assert_eq!(authenticate_request(&two, SECRET, NOW), Err(ApiError::AuthenticationFailure));
}

#[test]
fn gate_tolerates_missing_scheme_prefix() {
    let sub = "a@x.com".to_string();
    let token = issue_token(&sub, SECRET, NOW).expect("signing");
    let bare = vec![token];
    assert_eq!(authenticate_request(&bare, SECRET, NOW), Ok(sub));
}

#[test]
fn gate_rejects_expired_and_malformed() {
    let sub = "a@x.com".to_string();
    let token = issue_token(&sub, SECRET, NOW).expect("signing");
    let headers = vec![format!("Bearer {token}")];
    let late = NOW + TOKEN_LIFETIME_SECONDS;
    assert_eq!(authenticate_request(&headers, SECRET, late), Err(ApiError::AuthenticationFailure));
    let junk = vec!["Bearer junk".to_string()];
    assert_eq!(authenticate_request(&junk, SECRET, NOW), Err(ApiError::AuthenticationFailure));
}

#[test]
fn authorize_is_exact_identity_equality() {
    let a = "a@x.com".to_string();
    let b = "b@x.com".to_string();
    let a_upper = "A@x.com".to_string();
    assert_eq!(authorize(&a, &a.clone()), AccessDecision::Allow);
    assert_eq!(authorize(&a, &b), AccessDecision::Forbidden);
    assert_eq!(authorize(&a, &a_upper), AccessDecision::Forbidden);
}

#[test]
fn ownership_gates_update_and_delete() {
    let mut posts = ResourceStore::new();
    let a = "a@x.com".to_string();
    let b = "b@x.com".to_string();
    let id = posts
        .create_post(&"title".to_string(), &"body".to_string(), &a)
        .expect("created");

    // A stranger can neither update nor delete.
    assert_eq!(
        posts.update_post(id, &"x".to_string(), &"y".to_string(), &b),
        Err(ApiError::AuthorizationDenied)
    );
    assert_eq!(posts.delete_post(id, &b), Err(ApiError::AuthorizationDenied));

    // The creator updates; the creator field survives the update.
    assert_eq!(posts.update_post(id, &"new title".to_string(), &"new body".to_string(), &a), Ok(()));
    let post = posts.get_post(id).expect("still there");
    assert_eq!(post.title, "new title");
    assert_eq!(post.body, "new body");
    assert_eq!(post.author_email, a);

    // A nonexistent identifier is NotFound for anyone, owner included.
    assert_eq!(posts.delete_post(id + 1, &a), Err(ApiError::NotFound));
    assert_eq!(
        posts.update_post(id + 1, &"x".to_string(), &"y".to_string(), &b),
        Err(ApiError::NotFound)
    );

    // The creator deletes; a second delete is NotFound, not Forbidden.
    assert_eq!(posts.delete_post(id, &a), Ok(()));
    assert_eq!(posts.delete_post(id, &a), Err(ApiError::NotFound));
}

#[test]
fn post_ids_are_sequential_and_never_reissued() {
    let mut posts = ResourceStore::new();
    let a = "a@x.com".to_string();
    let t = "t".to_string();
    let first = posts.create_post(&t, &t, &a).expect("creation is owed");
    let second = posts.create_post(&t, &t, &a).expect("creation is owed");
    assert_eq!(first, 1);
    assert_eq!(second, 2);
    // A deleted identifier is never handed out again.
    posts.delete_post(second, &a).expect("owner deletes");
    let third = posts.create_post(&t, &t, &a).expect("creation is owed");
    assert_eq!(third, 3);
}

#[test]
fn listing_is_complete_and_newest_first() {
    let mut posts = ResourceStore::new();
    let a = "a@x.com".to_string();
    let first = posts.create_post(&"one".to_string(), &"1".to_string(), &a).unwrap();
    let second = posts.create_post(&"two".to_string(), &"2".to_string(), &a).unwrap();
    let third = posts.create_post(&"three".to_string(), &"3".to_string(), &a).unwrap();
    posts.delete_post(second, &a).unwrap();
    let all = posts.get_all_posts();
    let ids: Vec<i64> = all.iter().map(|p| p.id).collect();
    assert_eq!(ids, vec![third, first]);
    assert_eq!(all[0].title, "three");
    assert_eq!(all[1].title, "one");
}

#[test]
fn reads_are_unauthenticated() {
    let mut posts = ResourceStore::new();
    let a = "a@x.com".to_string();
    let id = posts
        .create_post(&"title".to_string(), &"body".to_string(), &a)
        .expect("created");
    // get_post takes no caller identity at all; it serves anyone.
    let post = posts.get_post(id).expect("readable");
    assert_eq!(post.author_email, a);
    assert_eq!(posts.get_post(id + 1).err(), Some(ApiError::NotFound));
}

#[test]
fn end_to_end_session() {
    let mut users = CredentialStore::new();
    let mut posts = ResourceStore::new();

    // Register and log in.
    let email = "a@x.com".to_string();
    let password = "secret".to_string();
    assert_eq!(register(&mut users, &email, &password), Ok(()));
    let token = login(&users, &email, &password, SECRET, NOW).expect("valid credentials");

    // Authenticate a request carrying the token and create a post with the
    // recovered identity.
    let headers = vec![format!("Bearer {token}")];
    let caller = authenticate_request(&headers, SECRET, NOW).expect("fresh token");
    assert_eq!(caller, email);
    let id = posts
        .create_post(&"hello".to_string(), &"world".to_string(), &caller)
        .expect("created");
    assert_eq!(posts.get_post(id).expect("readable").author_email, email);

    // A second identity gets its own token; its update attempt is denied.
    let other_email = "b@x.com".to_string();
    assert_eq!(register(&mut users, &other_email, &password), Ok(()));
    let other_token = login(&users, &other_email, &password, SECRET, NOW).expect("valid credentials");
    let other_headers = vec![format!("Bearer {other_token}")];
    let other_caller = authenticate_request(&other_headers, SECRET, NOW).expect("fresh token");
    assert_eq!(other_caller, other_email);
    assert_eq!(
        posts.update_post(id, &"taken".to_string(), &"over".to_string(), &other_caller),
        Err(ApiError::AuthorizationDenied)
    );

    // The owner deletes; a repeat delete is NotFound.
    assert_eq!(posts.delete_post(id, &caller), Ok(()));
    assert_eq!(posts.delete_post(id, &caller), Err(ApiError::NotFound));
}
