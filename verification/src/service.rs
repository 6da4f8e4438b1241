use vstd::prelude::*;

use crate::ApiError;
use crate::hashing::{bcrypt_matches, hash_password, verify_password};
use crate::store::CredentialStore;
use crate::token::{TOKEN_LIFETIME_SECONDS, issue_token, token_of};

verus! {

/// Relies on `chrono`'s conversion from `std::time::SystemTime`, which maps
/// any system time — a host clock set before the Unix epoch included — to a
/// timestamp without panicking (`chrono::Utc::now` itself would panic on a
/// pre-epoch clock). The clock can read anything, so nothing is promised of
/// the value.
#[verifier::external_body]
fn current_unix_time() -> i64 {
    chrono::DateTime::<chrono::Utc>::from(std::time::SystemTime::now()).timestamp()
}

/// Whether the presented credentials are good against the stored records:
/// the email is registered and the password verifies against its stored
/// digest. Login succeeds exactly on this condition, and fails with the one
/// indistinguishable `AuthenticationFailure` otherwise.
pub open spec fn login_auth_ok(
    records: Map<Seq<char>, Seq<char>>,
    email: Seq<char>,
    password: Seq<char>,
) -> bool {
    records.contains_key(email) && bcrypt_matches(password, records[email])
}

/// Register a new identity: hash the password, then insert the record.
/// A duplicate email is the one conflict condition; a hashing failure is an
/// internal failure and never a silent success; neither failure changes the
/// store. Empty emails and passwords are deliberately accepted — uniqueness
/// is the store's only rule — and emails are taken case-sensitively, exactly
/// as given.
pub fn register(store: &mut CredentialStore, email: &String, password: &String) -> (r: Result<(), ApiError>)
    requires
        old(store).wf(),
    ensures
        final(store).wf(),
        r is Ok ==> !old(store)@.contains_key(email@)
            && final(store)@.contains_key(email@)
            && bcrypt_matches(password@, final(store)@[email@])
            && final(store)@ == old(store)@.insert(email@, final(store)@[email@]),
        r matches Err(e) ==> final(store)@ == old(store)@
            && (e == ApiError::ValidationConflict || e == ApiError::InternalFailure),
        r matches Err(e) && e == ApiError::ValidationConflict ==> old(store)@.contains_key(email@),
        old(store)@.contains_key(email@) ==> r is Err,
{
    let digest = match hash_password(password) {
        Some(digest) => digest,
        None => {
            return Err(ApiError::InternalFailure);
        },
    };
    if store.insert_user(email.clone(), digest) {
        Ok(())
    } else {
        Err(ApiError::ValidationConflict)
    }
}

/// Decide a login attempt from the store's answer: `stored` is what the
/// lookup of `email` returned — the stored digest, or nothing. An absent
/// record and a digest the password does not verify against yield the very
/// same `AuthenticationFailure` value; on a match, success is owed: a token
/// is issued for `email` expiring 24 hours past `now`. The one
/// `InternalFailure` is an expiry past the end of the timestamp type — a
/// machine limit — and it occurs only when the credentials were right.
pub fn login_decision(
    stored: Option<&String>,
    email: &String,
    password: &String,
    secret: &[u8],
    now: i64,
) -> (r: Result<String, ApiError>)
    ensures
        r == Err::<String, ApiError>(ApiError::AuthenticationFailure)
            <==> !(stored matches Some(digest) && bcrypt_matches(password@, digest@)),
        r is Ok <==> (stored matches Some(digest) && bcrypt_matches(password@, digest@))
            && now + TOKEN_LIFETIME_SECONDS <= i64::MAX,
        r matches Ok(token) ==> token@ == token_of(email@, (now + TOKEN_LIFETIME_SECONDS) as i64, secret@),
        r == Err::<String, ApiError>(ApiError::InternalFailure)
            <==> (stored matches Some(digest) && bcrypt_matches(password@, digest@))
                && now + TOKEN_LIFETIME_SECONDS > i64::MAX,
{
    let digest = match stored {
        Some(digest) => digest,
        None => {
            return Err(ApiError::AuthenticationFailure);
        },
    };
    if !verify_password(password, digest) {
        return Err(ApiError::AuthenticationFailure);
    }
    issue_token(email, secret, now)
}

/// Log an identity in at clock reading `now`: look the email up, then decide
/// as `login_decision` does — verify the password against the stored digest
/// and on success issue a token whose subject is the email and whose expiry
/// is `now` plus 24 hours.
///
/// An unknown email and a wrong password yield the very same
/// `AuthenticationFailure` value — by this contract, nothing in the outcome
/// distinguishes them. Correct credentials are owed a token whenever the
/// expiry fits the timestamp type; the `InternalFailure` past that machine
/// limit occurs only when both credentials were right, so it too reveals
/// nothing about which was wrong.
pub fn login(
    store: &CredentialStore,
    email: &String,
    password: &String,
    secret: &[u8],
    now: i64,
) -> (r: Result<String, ApiError>)
    requires
        store.wf(),
    ensures
        r == Err::<String, ApiError>(ApiError::AuthenticationFailure)
            <==> !login_auth_ok(store@, email@, password@),
        r is Ok <==> login_auth_ok(store@, email@, password@)
            && now + TOKEN_LIFETIME_SECONDS <= i64::MAX,
        r matches Ok(token) ==> token@ == token_of(email@, (now + TOKEN_LIFETIME_SECONDS) as i64, secret@),
        r == Err::<String, ApiError>(ApiError::InternalFailure)
            <==> login_auth_ok(store@, email@, password@)
                && now + TOKEN_LIFETIME_SECONDS > i64::MAX,
{
    login_decision(store.find_user_by_email(email), email, password, secret, now)
}

/// Log in against the process clock: read the time once, then decide as
/// `login` does. The outcome class does not depend on the clock — the same
/// credentials succeed or fail whatever the hour — only the issued token's
/// expiry does, so the token is pinned up to the clock reading.
pub fn login_now(
    store: &CredentialStore,
    email: &String,
    password: &String,
    secret: &[u8],
) -> (r: Result<String, ApiError>)
    requires
        store.wf(),
    ensures
        r == Err::<String, ApiError>(ApiError::AuthenticationFailure)
            <==> !login_auth_ok(store@, email@, password@),
        r matches Ok(token) ==> login_auth_ok(store@, email@, password@)
            && exists|exp: i64| token@ == token_of(email@, exp, secret@),
        r == Err::<String, ApiError>(ApiError::InternalFailure)
            ==> login_auth_ok(store@, email@, password@),
{
    let now = current_unix_time();
    let r = login(store, email, password, secret, now);
    proof {
        if r is Ok {
            let token = r->Ok_0;
            assert(token@ == token_of(email@, (now + TOKEN_LIFETIME_SECONDS) as i64, secret@));
        }
    }
    r
}

/// Law: the correct password always logs in. A successful registration
/// leaves under `email` a digest that verifies against the registered
/// password (`register`'s contract), and any store in that state satisfies
/// the one condition `login` decides by — so by `login`'s contract the
/// attempt returns a token whenever the expiry fits the timestamp type, and
/// never `AuthenticationFailure`.
pub proof fn lemma_registered_password_logs_in(
    records: Map<Seq<char>, Seq<char>>,
    email: Seq<char>,
    password: Seq<char>,
)
    requires
        records.contains_key(email),
        bcrypt_matches(password, records[email]),
    ensures
        login_auth_ok(records, email, password),
{
}

/// Law: a login attempt with a never-registered email and one with a
/// registered email but a wrong password land on the same side of the one
/// condition `login` decides by, so by `login`'s contract both return the
/// identical `AuthenticationFailure` outcome, with no distinguishing signal.
pub proof fn lemma_login_indistinguishable(
    records: Map<Seq<char>, Seq<char>>,
    unknown_email: Seq<char>,
    password_a: Seq<char>,
    known_email: Seq<char>,
    password_b: Seq<char>,
)
    requires
        !records.contains_key(unknown_email),
        records.contains_key(known_email),
        !bcrypt_matches(password_b, records[known_email]),
    ensures
        !login_auth_ok(records, unknown_email, password_a),
        !login_auth_ok(records, known_email, password_b),
{
}

/// Law: once a registration has inserted an email, the store contains it, so
/// by `register`'s contract a second registration of the same email can never
/// succeed again — it yields `ValidationConflict` (or `InternalFailure`, when
/// hashing itself fails before the store is consulted).
pub proof fn lemma_second_registration_conflicts(
    records: Map<Seq<char>, Seq<char>>,
    email: Seq<char>,
    digest: Seq<char>,
)
    ensures
        records.insert(email, digest).contains_key(email),
{
}

} // verus!
