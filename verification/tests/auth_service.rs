use auth_core::ApiError;
use auth_core::service::{login, login_now, register};
use auth_core::store::CredentialStore;

const SECRET: &[u8] = b"test-signing-secret";
const NOW: i64 = 1_700_000_000;

#[test]
fn register_then_login_succeeds() {
    let mut store = CredentialStore::new();
    let email = "a@x.com".to_string();
    let password = "secret".to_string();
    assert_eq!(register(&mut store, &email, &password), Ok(()));
    let token = login(&store, &email, &password, SECRET, NOW);
    assert!(token.is_ok());
}

#[test]
fn login_failures_are_indistinguishable() {
    let mut store = CredentialStore::new();
    let email = "a@x.com".to_string();
    let password = "secret".to_string();
    assert_eq!(register(&mut store, &email, &password), Ok(()));

    let unknown = login(&store, &"ghost@x.com".to_string(), &password, SECRET, NOW);
    let wrong_pw = login(&store, &email, &"not-the-password".to_string(), SECRET, NOW);
    assert_eq!(unknown, Err(ApiError::AuthenticationFailure));
    assert_eq!(wrong_pw, Err(ApiError::AuthenticationFailure));
    assert_eq!(unknown, wrong_pw);
}

#[test]
fn duplicate_registration_conflicts() {
    let mut store = CredentialStore::new();
    let email = "a@x.com".to_string();
    assert_eq!(register(&mut store, &email, &"first".to_string()), Ok(()));
    assert_eq!(
        register(&mut store, &email, &"second".to_string()),
        Err(ApiError::ValidationConflict)
    );
    // The original record is untouched: the first password still logs in.
    assert!(login(&store, &email, &"first".to_string(), SECRET, NOW).is_ok());
    assert_eq!(
        login(&store, &email, &"second".to_string(), SECRET, NOW),
        Err(ApiError::AuthenticationFailure)
    );
}

#[test]
fn stored_digest_is_not_the_password() {
    let mut store = CredentialStore::new();
    let email = "a@x.com".to_string();
    let password = "secret".to_string();
    assert_eq!(register(&mut store, &email, &password), Ok(()));
    let digest = store.find_user_by_email(&email).expect("registered").clone();
    assert_ne!(digest, password);
    // A bcrypt digest is 60 bytes and starts with a `$2` version tag.
    assert_eq!(digest.len(), 60);
    assert!(digest.starts_with("$2"));
}

#[test]
fn salts_differ_between_registrations() {
    let mut store = CredentialStore::new();
    let password = "same-password".to_string();
    assert_eq!(register(&mut store, &"a@x.com".to_string(), &password), Ok(()));
    assert_eq!(register(&mut store, &"b@x.com".to_string(), &password), Ok(()));
    let d1 = store.find_user_by_email(&"a@x.com".to_string()).unwrap();
    let d2 = store.find_user_by_email(&"b@x.com".to_string()).unwrap();
    assert_ne!(d1, d2);
}

#[test]
fn lookup_of_unknown_email_is_none() {
    let store = CredentialStore::new();
    assert!(store.find_user_by_email(&"a@x.com".to_string()).is_none());
}

#[test]
fn emails_are_case_sensitive() {
    let mut store = CredentialStore::new();
    assert_eq!(register(&mut store, &"A@x.com".to_string(), &"p1".to_string()), Ok(()));
    assert_eq!(register(&mut store, &"a@x.com".to_string(), &"p2".to_string()), Ok(()));
    assert!(login(&store, &"A@x.com".to_string(), &"p1".to_string(), SECRET, NOW).is_ok());
    assert_eq!(
        login(&store, &"a@x.com".to_string(), &"p1".to_string(), SECRET, NOW),
        Err(ApiError::AuthenticationFailure)
    );
}

#[test]
fn empty_credentials_are_accepted() {
    // Deliberate policy: emptiness is not policed, uniqueness is the only
    // store rule. Both branches of the decision are exercised here.
    let mut store = CredentialStore::new();
    let empty = String::new();
    assert_eq!(register(&mut store, &empty, &empty), Ok(()));
    assert!(login(&store, &empty, &empty, SECRET, NOW).is_ok());
    assert_eq!(register(&mut store, &empty, &empty), Err(ApiError::ValidationConflict));
}

#[test]
fn expiry_overflow_is_internal_failure() {
    let mut store = CredentialStore::new();
    let email = "a@x.com".to_string();
    let password = "secret".to_string();
    assert_eq!(register(&mut store, &email, &password), Ok(()));
    assert_eq!(
        login(&store, &email, &password, SECRET, i64::MAX),
        Err(ApiError::InternalFailure)
    );
}

#[test]
fn fresh_backend_is_empty() {
    let mut backend = auth_core::rocket();
    // No identities and no posts yet: login and reads fail, registration works.
    assert_eq!(
        login(&backend.users, &"a@x.com".to_string(), &"secret".to_string(), SECRET, NOW),
        Err(ApiError::AuthenticationFailure)
    );
    assert!(backend.posts.get_post(1).is_err());
    assert_eq!(register(&mut backend.users, &"a@x.com".to_string(), &"secret".to_string()), Ok(()));
    assert!(login(&backend.users, &"a@x.com".to_string(), &"secret".to_string(), SECRET, NOW).is_ok());
}

#[test]
fn login_against_process_clock() {
    let mut store = CredentialStore::new();
    let email = "a@x.com".to_string();
    let password = "secret".to_string();
    assert_eq!(register(&mut store, &email, &password), Ok(()));
    assert!(login_now(&store, &email, &password, SECRET).is_ok());
    assert_eq!(
        login_now(&store, &email, &"wrong".to_string(), SECRET),
        Err(ApiError::AuthenticationFailure)
    );
}
