use vstd::prelude::*;

use crate::ApiError;

verus! {

/// How long an issued session stays valid: 24 hours, in seconds.
pub const TOKEN_LIFETIME_SECONDS: i64 = 86400;

/// The claims signed into a session token: the subject (the user's email)
/// and the expiration instant as a Unix timestamp in seconds.
#[derive(Debug, Clone, PartialEq, Eq)]
pub struct Claims {
    pub sub: String,
    pub exp: i64,
}

/// The mathematical value of a claim set.
pub ghost struct ClaimsView {
    pub sub: Seq<char>,
    pub exp: int,
}

impl View for Claims {
    type V = ClaimsView;

    open spec fn view(&self) -> ClaimsView {
        ClaimsView { sub: self.sub@, exp: self.exp as int }
    }
}

/// The signed token that `jsonwebtoken` produces for the claim set
/// `{"sub": sub, "exp": exp}` under the HS256 algorithm with the given
/// secret. Serialization and HMAC signing are deterministic, so the token is
/// a function of the three arguments alone; its text is left without a
/// definition, since spelling the encoding out here would state nothing that
/// could be checked against the outside implementation.
pub uninterp spec fn token_of(sub: Seq<char>, exp: i64, secret: Seq<u8>) -> Seq<char>;

/// Whether the token's HS256 signature — the HMAC over its header and
/// payload parts — verifies under the given secret: that is, whether the
/// token was produced by a holder of that secret. Deterministic in the two
/// arguments; left without a definition, as the HMAC computation is the
/// outside implementation's.
pub uninterp spec fn hs256_signed(token: Seq<char>, secret: Seq<u8>) -> bool;

/// Relies on `jsonwebtoken::encode` with `Header::default()` (HS256) and
/// `EncodingKey::from_secret`: the result is the signed compact serialization
/// of exactly the claim object `{"sub": sub, "exp": exp}` under the given
/// secret, so its signature verifies under that secret. This path cannot
/// fail: an HMAC key may have any length (`hmac`'s `new_from_slice` has no
/// error case and its `try_sign` always returns the tag), and serializing the
/// default header and a string-keyed claim object cannot error, so `encode`
/// returns `Ok` for every input here.
#[verifier::external_body]
pub(crate) fn jwt_encode(sub: &String, exp: i64, secret: &[u8]) -> (r: Option<String>)
    ensures
        r is Some,
        r matches Some(t) ==> t@ == token_of(sub@, exp, secret@) && hs256_signed(t@, secret@),
{
    let mut claims = serde_json::Map::new();
    claims.insert("sub".to_string(), serde_json::Value::from(sub.as_str()));
    claims.insert("exp".to_string(), serde_json::Value::from(exp));
    let key = jsonwebtoken::EncodingKey::from_secret(secret);
    let header = jsonwebtoken::Header::default();
    match jsonwebtoken::encode(&header, &serde_json::Value::Object(claims), &key) {
        Ok(t) => Some(t),
        Err(_) => None,
    }
}

/// Relies on `jsonwebtoken::decode` with `DecodingKey::from_secret` and a
/// `Validation` restricted to signature checking (HS256 only; the expiry
/// check is turned off here and done by verified code, which receives the
/// clock explicitly). Signature verification recomputes the HMAC with the
/// given secret, and the payload written by `jwt_encode` deserializes back to
/// the same `sub` and `exp` values, so a token produced by `jwt_encode` under
/// the same secret always comes back as `Some` of the claims it was built
/// from. Acceptance proves integrity: `decode` rejects any token whose
/// signature does not verify under the secret, so every `Some` answer came
/// from a properly signed token. Beyond that nothing is promised of foreign
/// input: a malformed token yields `None`, and a signed token of another
/// shape yields whatever claim pair its payload carries.
#[verifier::external_body]
pub(crate) fn jwt_decode(token: &str, secret: &[u8]) -> (r: Option<(String, i64)>)
    ensures
        r is Some ==> hs256_signed(token@, secret@),
        forall|sub: Seq<char>, exp: i64|
            token@ == #[trigger] token_of(sub, exp, secret@) ==> match r {
                Some(p) => p.0@ == sub && p.1 == exp,
                None => false,
            },
{
    let mut validation = jsonwebtoken::Validation::default();
    validation.validate_exp = false;
    validation.set_required_spec_claims::<&str>(&[]);
    let key = jsonwebtoken::DecodingKey::from_secret(secret);
    match jsonwebtoken::decode::<serde_json::Value>(token, &key, &validation) {
        Ok(data) => {
            let sub = data.claims.get("sub").and_then(serde_json::Value::as_str);
            let exp = data.claims.get("exp").and_then(serde_json::Value::as_i64);
            match (sub, exp) {
                (Some(s), Some(e)) => Some((s.to_string(), e)),
                _ => None,
            }
        },
        Err(_) => None,
    }
}

/// What decoding a token issued for `(sub, exp)` yields when the clock reads
/// `now`: the claims themselves while `now < exp`, and an authentication
/// failure once the expiry has passed.
pub open spec fn decode_of_issued(sub: Seq<char>, exp: i64, now: i64) -> Result<ClaimsView, ApiError> {
    if now < exp {
        Ok(ClaimsView { sub: sub, exp: exp as int })
    } else {
        Err(ApiError::AuthenticationFailure)
    }
}

/// The mathematical value of a decode result.
pub open spec fn decode_result_view(r: Result<Claims, ApiError>) -> Result<ClaimsView, ApiError> {
    match r {
        Ok(c) => Ok(c@),
        Err(e) => Err(e),
    }
}

/// Serialize and sign `claims` with the process-wide secret. Nothing is
/// checked about the claims themselves: expiry bounds are the caller's
/// business (`issue_token` builds them). Signing with an HMAC secret cannot
/// fail, so success is owed on every input.
pub fn encode_claims(claims: &Claims, secret: &[u8]) -> (r: Result<String, ApiError>)
    ensures
        r is Ok,
        r matches Ok(t) ==> t@ == token_of(claims.sub@, claims.exp, secret@)
            && hs256_signed(t@, secret@),
{
    match jwt_encode(&claims.sub, claims.exp, secret) {
        Some(t) => Ok(t),
        None => Err(ApiError::InternalFailure),
    }
}

/// Issue a session token for `sub` at clock reading `now`: the claims carry
/// the subject and an expiry of `now` plus 24 hours. The one failure is an
/// expiry that does not fit in the timestamp type — a machine limit,
/// surfaced as an internal failure, never a silently wrong token; below it,
/// success is owed.
pub fn issue_token(sub: &String, secret: &[u8], now: i64) -> (r: Result<String, ApiError>)
    ensures
        r is Ok <==> now + TOKEN_LIFETIME_SECONDS <= i64::MAX,
        r matches Ok(t) ==> t@ == token_of(sub@, (now + TOKEN_LIFETIME_SECONDS) as i64, secret@)
            && hs256_signed(t@, secret@),
        r matches Err(e) ==> e == ApiError::InternalFailure,
{
    if now <= i64::MAX - TOKEN_LIFETIME_SECONDS {
        let exp: i64 = now + TOKEN_LIFETIME_SECONDS;
        let claims = Claims { sub: sub.clone(), exp };
        encode_claims(&claims, secret)
    } else {
        Err(ApiError::InternalFailure)
    }
}

/// Decode and validate a presented token against the secret and the clock
/// reading `now`. Signature integrity comes from the codec; the expiry rule
/// `now < exp` is checked here. Every failure — bad signature, malformed
/// token, expired claims — collapses to the one `AuthenticationFailure`
/// outcome, so a caller learns nothing about which check rejected it.
///
/// For any token issued by this codec under the same secret, the result is
/// exactly `decode_of_issued`: the original claims while the expiry lies
/// ahead of `now`, and a failure once it has passed. Success, whatever the
/// token, proves that its signature verifies under the secret.
pub fn decode_token(token: &str, secret: &[u8], now: i64) -> (r: Result<Claims, ApiError>)
    ensures
        r matches Err(e) ==> e == ApiError::AuthenticationFailure,
        forall|sub: Seq<char>, exp: i64|
            token@ == #[trigger] token_of(sub, exp, secret@)
                ==> decode_result_view(r) == decode_of_issued(sub, exp, now),
        r matches Ok(c) ==> now < c.exp && hs256_signed(token@, secret@),
{
    match jwt_decode(token, secret) {
        Some(pair) => {
            let (sub, exp) = pair;
            if now < exp {
                Ok(Claims { sub, exp })
            } else {
                Err(ApiError::AuthenticationFailure)
            }
        },
        None => Err(ApiError::AuthenticationFailure),
    }
}

/// Law: decoding an issued token returns its claims unchanged while the
/// expiry lies in the future, and fails with `AuthenticationFailure` once the
/// expiry instant has been reached. Together with the contract of
/// `decode_token`, this pins the round trip `decode(issue(c))` for every
/// claim set and every clock reading.
pub proof fn lemma_issue_decode_round_trip(sub: Seq<char>, exp: i64, now: i64)
    ensures
        now < exp ==> decode_of_issued(sub, exp, now) == Ok::<ClaimsView, ApiError>(ClaimsView { sub: sub, exp: exp as int }),
        now >= exp ==> decode_of_issued(sub, exp, now) == Err::<ClaimsView, ApiError>(ApiError::AuthenticationFailure),
{
}

} // verus!
