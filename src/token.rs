//! Signed, time-bounded bearer tokens (HS256 JSON Web Tokens carrying a
//! subject and an absolute expiry in Unix seconds).

use vstd::prelude::*;

verus! {

/// How long an issued token stays valid, in seconds.
pub const TOKEN_LIFETIME_SECS: u64 = 86400;

/// What a token carries once its signature has been checked.
pub struct Claims {
    /// The subject the token was issued for.
    pub sub: String,
    /// The instant, in Unix seconds, from which the token is no longer valid.
    pub exp: u64,
}

/// Why a token was refused.
#[derive(Clone, Copy, Debug, PartialEq, Eq, Structural)]
pub enum TokenError {
    /// Not a token, or not signed with this secret, or without a subject and
    /// an expiry.
    Malformed,
    /// Well signed, but its expiry is at or before the current time.
    Expired,
    /// The clock reads before the Unix epoch, so expiry cannot be judged.
    ClockBeforeEpoch,
}

/// Why no token could be issued.
#[derive(Clone, Copy, Debug, PartialEq, Eq, Structural)]
pub enum IssueError {
    /// The clock reads before the Unix epoch.
    ClockBeforeEpoch,
    /// The expiry would not fit in 64 bits.
    ExpiryOutOfRange,
}

/// The subject and expiry that `token` carries when it is an HS256 JSON Web
/// Token whose signature checks against `secret`. `None` when it is not, or
/// when its claims lack a string `sub` or an unsigned integer `exp`, or carry
/// an `aud` (no audience is accepted). The expiry is not compared with any
/// clock here.
pub uninterp spec fn signed_claims(token: Seq<char>, secret: Seq<u8>) -> Option<(Seq<char>, u64)>;

/// The HS256 JSON Web Token with the default header and the claims object
/// `{ "sub": sub, "exp": exp }`, signed with `secret`.
pub uninterp spec fn signed_token(sub: Seq<char>, exp: u64, secret: Seq<u8>) -> Seq<char>;

/// Relies on `jsonwebtoken::encode` with the default (HS256) header and an
/// HMAC key made from `secret`. With an HMAC key of any length and a JSON map
/// of a string and an integer, the key family matches, serialisation and
/// signing cannot fail, and the token depends on its inputs alone. It is read
/// back unchanged by `jsonwebtoken::decode` with the same secret.
#[verifier::external_body]
fn sign_claims(sub: &str, exp: u64, secret: &[u8]) -> (r: Option<String>)
    ensures
        r is Some,
        r matches Some(t) ==> t@ == signed_token(sub@, exp, secret@),
        r matches Some(t) ==> signed_claims(t@, secret@) == Some((sub@, exp)),
{
    let mut claims = serde_json::Map::new();
    claims.insert("sub".to_string(), serde_json::Value::from(sub));
    claims.insert("exp".to_string(), serde_json::Value::from(exp));
    let key = jsonwebtoken::EncodingKey::from_secret(secret);
    jsonwebtoken::encode(&jsonwebtoken::Header::default(), &claims, &key).ok()
}

/// Relies on `jsonwebtoken::decode` with an HMAC key made from `secret`,
/// HS256 only, and no check of the time claims (expiry is decided by
/// [`check_claims`]): the subject and expiry read from a token whose
/// signature verifies.
#[verifier::external_body]
fn verify_signature(token: &str, secret: &[u8]) -> (r: Option<(String, u64)>)
    ensures
        r matches Some(c) ==> signed_claims(token@, secret@) == Some((c.0@, c.1)),
        r is None ==> signed_claims(token@, secret@) is None,
{
    let mut rules = jsonwebtoken::Validation::new(jsonwebtoken::Algorithm::HS256);
    rules.validate_exp = false;
    rules.required_spec_claims.clear();
    let key = jsonwebtoken::DecodingKey::from_secret(secret);
    let data = jsonwebtoken::decode::<serde_json::Map<String, serde_json::Value>>(token, &key, &rules).ok()?;
    let sub = data.claims.get("sub")?.as_str()?;
    Some((sub.to_string(), data.claims.get("exp")?.as_u64()?))
}

/// The system clock's type, carried through opaque.
#[verifier::external_type_specification]
#[verifier::external_body]
pub struct ExSystemTime(std::time::SystemTime);

/// Relies on `std::time::SystemTime::now`: the system clock's reading.
/// Nothing is known of the value.
#[verifier::external_body]
fn system_now() -> (r: std::time::SystemTime) {
    std::time::SystemTime::now()
}

/// Relies on `std::time::SystemTime::duration_since` from `UNIX_EPOCH`:
/// whole seconds since the epoch, or `None` for a reading before it.
#[verifier::external_body]
fn unix_seconds(t: std::time::SystemTime) -> (r: Option<u64>) {
    t.duration_since(std::time::UNIX_EPOCH).ok().map(|d| d.as_secs())
}

/// The current time in Unix seconds, or `None` when the clock reads before
/// the epoch.
pub(crate) fn unix_now() -> (r: Option<u64>) {
    unix_seconds(system_now())
}

/// The outcome of validating a token whose signature check gave `decoded`,
/// at Unix time `now`.
pub open spec fn validation(decoded: Option<(Seq<char>, u64)>, now: int) -> Result<
    (Seq<char>, u64),
    TokenError,
> {
    match decoded {
        None => Err(TokenError::Malformed),
        Some(c) => if c.1 <= now {
            Err(TokenError::Expired)
        } else {
            Ok(c)
        },
    }
}

/// The outcome of validating `token` against `secret` at Unix time `now`.
pub open spec fn token_validation(token: Seq<char>, secret: Seq<u8>, now: int) -> Result<
    (Seq<char>, u64),
    TokenError,
> {
    validation(signed_claims(token, secret), now)
}

/// `token` was issued for `subject` by the holder of `secret` at Unix time
/// `at`.
pub open spec fn issued_at(token: Seq<char>, subject: Seq<char>, secret: Seq<u8>, at: int) -> bool {
    signed_claims(token, secret) == Some((subject, (at + TOKEN_LIFETIME_SECS) as u64))
}

/// A validation result matches its model.
pub open spec fn claims_match(r: Result<Claims, TokenError>, m: Result<(Seq<char>, u64), TokenError>) -> bool {
    match r {
        Ok(c) => m == Ok::<(Seq<char>, u64), TokenError>((c.sub@, c.exp)),
        Err(e) => m == Err::<(Seq<char>, u64), TokenError>(e),
    }
}

/// Decide on the result of a signature check at Unix time `now`: no claims
/// is `Malformed`, an expiry at or before `now` is `Expired`, anything else
/// is valid.
pub fn check_claims(decoded: Option<(String, u64)>, now: u64) -> (r: Result<Claims, TokenError>)
    ensures
        claims_match(
            r,
            validation(
                match decoded {
                    Some(c) => Some((c.0@, c.1)),
                    None => None,
                },
                now as int,
            ),
        ),
{
    match decoded {
        None => Err(TokenError::Malformed),
        Some((sub, exp)) => {
            if exp <= now {
                Err(TokenError::Expired)
            } else {
                Ok(Claims { sub, exp })
            }
        },
    }
}

/// Validate `token` against `secret` at Unix time `now`.
pub fn decode_token_at(token: &str, secret: &[u8], now: u64) -> (r: Result<Claims, TokenError>)
    ensures
        claims_match(r, token_validation(token@, secret@, now as int)),
{
    check_claims(verify_signature(token, secret), now)
}

/// Validate `token` against `secret` at the current time. A clock that reads
/// before the epoch leaves expiry undecidable, and the token is refused.
pub fn decode_token(token: &str, secret: &[u8]) -> (r: Result<Claims, TokenError>)
    ensures
        r == Err::<Claims, TokenError>(TokenError::ClockBeforeEpoch) || exists|now: int|
            0 <= now && claims_match(r, #[trigger] token_validation(token@, secret@, now)),
{
    match unix_now() {
        Some(now) => decode_token_at(token, secret, now),
        None => Err(TokenError::ClockBeforeEpoch),
    }
}

/// The token issued for `subject` with `secret` at Unix time `at`.
pub open spec fn token_issued(subject: Seq<char>, secret: Seq<u8>, at: int) -> Seq<char> {
    signed_token(subject, (at + TOKEN_LIFETIME_SECS) as u64, secret)
}

/// Issue a token for `subject`, signed with `secret`, at Unix time `now`; it
/// expires `TOKEN_LIFETIME_SECS` later. Issuing fails only when that expiry
/// does not fit in 64 bits.
pub fn generate_token_at(subject: &str, secret: &[u8], now: u64) -> (r: Result<String, IssueError>)
    ensures
        now + TOKEN_LIFETIME_SECS > u64::MAX ==> r == Err::<String, IssueError>(
            IssueError::ExpiryOutOfRange,
        ),
        now + TOKEN_LIFETIME_SECS <= u64::MAX ==> (r matches Ok(t) && t@ == token_issued(
            subject@,
            secret@,
            now as int,
        ) && issued_at(t@, subject@, secret@, now as int)),
{
    if now > u64::MAX - TOKEN_LIFETIME_SECS {
        return Err(IssueError::ExpiryOutOfRange);
    }
    let exp: u64 = now + TOKEN_LIFETIME_SECS;
    match sign_claims(subject, exp, secret) {
        Some(t) => Ok(t),
        // `sign_claims` always signs; this arm is never taken.
        None => Err(IssueError::ExpiryOutOfRange),
    }
}

/// Issue a token for `subject`, signed with `secret`, at the current time.
/// It fails when the clock reads before the epoch, or so late that the
/// expiry does not fit in 64 bits.
pub fn generate_token(subject: &str, secret: &[u8]) -> (r: Result<String, IssueError>)
    ensures
        r matches Ok(t) ==> exists|at: int|
            0 <= at && t@ == #[trigger] token_issued(subject@, secret@, at) && issued_at(
                t@,
                subject@,
                secret@,
                at,
            ),
{
    match unix_now() {
        Some(now) => generate_token_at(subject, secret, now),
        None => Err(IssueError::ClockBeforeEpoch),
    }
}

/// A token validated before its lifetime has run out yields the subject it
/// was issued for.
pub proof fn lemma_token_round_trip(token: Seq<char>, subject: Seq<char>, secret: Seq<u8>, at: int, now: int)
    requires
        0 <= at,
        at + TOKEN_LIFETIME_SECS <= u64::MAX,
        issued_at(token, subject, secret, at),
        now < at + TOKEN_LIFETIME_SECS,
    ensures
        token_validation(token, secret, now) == Ok::<(Seq<char>, u64), TokenError>(
            (subject, (at + TOKEN_LIFETIME_SECS) as u64),
        ),
{
}

/// A well-signed token whose expiry is at or before `now` is `Expired`.
pub proof fn lemma_token_expiry(token: Seq<char>, secret: Seq<u8>, now: int)
    requires
        signed_claims(token, secret) matches Some(c) && c.1 <= now,
    ensures
        token_validation(token, secret, now) == Err::<(Seq<char>, u64), TokenError>(TokenError::Expired),
{
}

/// A string whose signature does not check against `secret` (signed with
/// another secret, or no token at all) is `Malformed`, whatever the time.
pub proof fn lemma_token_tampered(token: Seq<char>, secret: Seq<u8>, now: int)
    requires
        signed_claims(token, secret) is None,
    ensures
        token_validation(token, secret, now) == Err::<(Seq<char>, u64), TokenError>(TokenError::Malformed),
{
}

} // verus!
