use vstd::prelude::*;

use crate::ApiError;
use crate::token::{decode_token, hs256_signed, token_of};

verus! {

/// The scheme prefix a client usually puts before its bearer token.
pub open spec fn bearer_prefix() -> Seq<char> {
    seq!['B', 'e', 'a', 'r', 'e', 'r', ' ']
}

/// The token body of an authorization header value: the text after the
/// `Bearer ` scheme prefix when that prefix is present, and the whole value
/// when it is not — a bare token is tolerated, since decoding depends on the
/// token body alone.
pub open spec fn bearer_body(header: Seq<char>) -> Seq<char> {
    if header.len() >= 7 && header.subrange(0, 7) == bearer_prefix() {
        header.subrange(7, header.len() as int)
    } else {
        header
    }
}

/// Strip the `Bearer ` scheme prefix from a header value, if it is there.
fn strip_bearer(header: &str) -> (token: &str)
    ensures
        token@ == bearer_body(header@),
{
    let n = header.unicode_len();
    if n >= 7 && header.get_char(0) == 'B' && header.get_char(1) == 'e'
        && header.get_char(2) == 'a' && header.get_char(3) == 'r' && header.get_char(4) == 'e'
        && header.get_char(5) == 'r' && header.get_char(6) == ' ' {
        proof {
            assert(header@.subrange(0, 7) =~= bearer_prefix());
        }
        header.substring_char(7, n)
    } else {
        proof {
            if header@.len() >= 7 && header@.subrange(0, 7) == bearer_prefix() {
                assert(forall|k: int| 0 <= k < 7 ==> header@.subrange(0, 7)[k] == header@[k]);
                assert(header@[0] == 'B' && header@[1] == 'e' && header@[2] == 'a'
                    && header@[3] == 'r' && header@[4] == 'e' && header@[5] == 'r'
                    && header@[6] == ' ');
            }
        }
        header
    }
}

/// The per-request gate. Given the values of the request's authorization
/// header — all of them, so that anything other than exactly one can be
/// rejected — recover the caller's identity from the presented token, or
/// reject before any resource work is done.
///
/// Every failure — no header, several headers, a malformed or forged token,
/// an expired one — is the single `AuthenticationFailure` outcome. An
/// accepted request carried a token whose signature verifies under the
/// secret, so the identity was put there by a holder of that secret. For a
/// token issued under the same secret, the result is pinned: the subject
/// comes back as the caller identity while the expiry lies ahead of `now`,
/// and the request is rejected once it has passed.
pub fn authenticate_request(headers: &Vec<String>, secret: &[u8], now: i64) -> (r: Result<String, ApiError>)
    ensures
        r matches Err(e) ==> e == ApiError::AuthenticationFailure,
        headers@.len() != 1 ==> r == Err::<String, ApiError>(ApiError::AuthenticationFailure),
        r is Ok ==> headers@.len() == 1 && hs256_signed(bearer_body(headers@[0]@), secret@),
        headers@.len() == 1 ==> forall|sub: Seq<char>, exp: i64|
            bearer_body(headers@[0]@) == #[trigger] token_of(sub, exp, secret@) ==> match r {
                Ok(identity) => now < exp && identity@ == sub,
                Err(_) => now >= exp,
            },
{
    if headers.len() != 1 {
        return Err(ApiError::AuthenticationFailure);
    }
    let token = strip_bearer(headers[0].as_str());
    match decode_token(token, secret, now) {
        Ok(claims) => Ok(claims.sub),
        Err(e) => Err(e),
    }
}

} // verus!
