//! Resolving the `Authorization` header of a request to a principal.

use crate::token::{decode_token_at, token_validation, unix_now};
use vstd::prelude::*;

verus! {

/// The identity a request was authenticated as.
#[derive(Clone, Debug)]
pub struct AuthUser {
    pub user_id: String,
}

/// The one failure the extractor reports: it does not say whether the header
/// was missing, of another scheme, or held a bad or expired token.
#[derive(Clone, Copy, Debug, PartialEq, Eq, Structural)]
pub enum AuthError {
    Unauthorized,
}

/// The scheme prefix of a bearer credential.
pub open spec fn bearer_prefix() -> Seq<char> {
    seq!['B', 'e', 'a', 'r', 'e', 'r', ' ']
}

/// The token text of a header value that starts with `"Bearer "`.
pub open spec fn strip_bearer(h: Seq<char>) -> Option<Seq<char>> {
    if h.len() >= 7 && h.subrange(0, 7) == bearer_prefix() {
        Some(h.subrange(7, h.len() as int))
    } else {
        None
    }
}

pub open spec fn header_view(header: Option<&str>) -> Option<Seq<char>> {
    match header {
        Some(h) => Some(h@),
        None => None,
    }
}

/// The principal id that a request with this header resolves to at Unix time
/// `now`, if any.
pub open spec fn authorization(header: Option<Seq<char>>, secret: Seq<u8>, now: int) -> Option<
    Seq<char>,
> {
    match header {
        None => None,
        Some(h) => match strip_bearer(h) {
            None => None,
            Some(t) => match token_validation(t, secret, now) {
                Ok(c) => Some(c.0),
                Err(_) => None,
            },
        },
    }
}

/// The token text of a `"Bearer <token>"` header value.
pub fn bearer_token(header: &str) -> (r: Option<&str>)
    ensures
        match r {
            Some(t) => strip_bearer(header@) == Some(t@),
            None => strip_bearer(header@) is None,
        },
{
    let expected: [char; 7] = ['B', 'e', 'a', 'r', 'e', 'r', ' '];
    assert(expected@ =~= bearer_prefix());
    let n: usize = header.unicode_len();
    if n < 7 {
        return None;
    }
    let mut i: usize = 0;
    while i < 7
        invariant
            n == header@.len(),
            7 <= n,
            i <= 7,
            expected@ == bearer_prefix(),
            forall|j: int| 0 <= j < i ==> header@[j] == expected@[j],
        decreases 7 - i,
    {
        if header.get_char(i) != expected[i] {
            assert(header@.subrange(0, 7)[i as int] != bearer_prefix()[i as int]);
            return None;
        }
        i = i + 1;
    }
    assert(header@.subrange(0, 7) =~= bearer_prefix());
    Some(header.substring_char(7, n))
}

/// Resolve a request's `Authorization` header at Unix time `now`: it must be
/// present, start with `"Bearer "`, and carry a token that `secret` signed
/// and that has not expired.
pub fn authorize_at(header: Option<&str>, secret: &[u8], now: u64) -> (r: Result<AuthUser, AuthError>)
    ensures
        match r {
            Ok(u) => authorization(header_view(header), secret@, now as int) == Some(u.user_id@),
            Err(_) => authorization(header_view(header), secret@, now as int) is None,
        },
{
    let h: &str = match header {
        Some(h) => h,
        None => return Err(AuthError::Unauthorized),
    };
    let token: &str = match bearer_token(h) {
        Some(t) => t,
        None => return Err(AuthError::Unauthorized),
    };
    match decode_token_at(token, secret, now) {
        Ok(claims) => Ok(AuthUser { user_id: claims.sub }),
        Err(_) => Err(AuthError::Unauthorized),
    }
}

/// Resolve a request's `Authorization` header at the current time. A clock
/// that reads before the epoch leaves expiry undecidable: the request is
/// refused.
pub fn authorize(header: Option<&str>, secret: &[u8]) -> (r: Result<AuthUser, AuthError>)
    ensures
        r matches Ok(u) ==> exists|now: int|
            0 <= now && #[trigger] authorization(header_view(header), secret@, now) == Some(
                u.user_id@,
            ),
        (header matches Some(h) ==> strip_bearer(h@) is None) ==> r is Err,
{
    match unix_now() {
        Some(now) => authorize_at(header, secret, now),
        None => Err(AuthError::Unauthorized),
    }
}

} // verus!
