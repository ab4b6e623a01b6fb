use gatekeep::auth::{authorize, authorize_at, bearer_token, AuthError};
use gatekeep::token::{
    check_claims, decode_token, decode_token_at, generate_token, generate_token_at, IssueError,
    TokenError, TOKEN_LIFETIME_SECS,
};

const SECRET: &[u8] = b"test-signing-secret";

#[test]
fn issued_token_validates_to_its_subject() {
    let token = generate_token("user-1", SECRET).expect("issued");
    let claims = decode_token(&token, SECRET).expect("valid");
    assert_eq!(claims.sub, "user-1");
}

#[test]
fn issued_token_is_not_the_subject() {
    let token = generate_token_at("user-1", SECRET, 1_000).expect("issued");
    assert_ne!(token, "user-1");
    assert_eq!(token.matches('.').count(), 2);
}

#[test]
fn token_expiry_is_a_day_after_issue() {
    let token = generate_token_at("user-1", SECRET, 1_000).expect("issued");
    let claims = decode_token_at(&token, SECRET, 1_000).expect("valid");
    assert_eq!(claims.sub, "user-1");
    assert_eq!(claims.exp, 1_000 + TOKEN_LIFETIME_SECS);
    assert!(decode_token_at(&token, SECRET, 87_399).is_ok());
    assert_eq!(decode_token_at(&token, SECRET, 87_400).err(), Some(TokenError::Expired));
}

#[test]
fn token_with_past_expiry_is_expired() {
    let token = generate_token_at("user-1", SECRET, 1_000).expect("issued");
    assert_eq!(decode_token(&token, SECRET).err(), Some(TokenError::Expired));
}

#[test]
fn token_of_another_secret_is_malformed() {
    let token = generate_token("user-1", b"another-secret").expect("issued");
    assert_eq!(decode_token(&token, SECRET).err(), Some(TokenError::Malformed));
}

#[test]
fn arbitrary_text_is_malformed() {
    assert_eq!(decode_token("not-a-token", SECRET).err(), Some(TokenError::Malformed));
    assert_eq!(decode_token("", SECRET).err(), Some(TokenError::Malformed));
    assert_eq!(decode_token("a.b.c", SECRET).err(), Some(TokenError::Malformed));
}

#[test]
fn issue_with_unrepresentable_expiry_is_refused() {
    assert_eq!(generate_token_at("user-1", SECRET, u64::MAX).err(), Some(IssueError::ExpiryOutOfRange));
    let last = u64::MAX - TOKEN_LIFETIME_SECS;
    assert_eq!(generate_token_at("user-1", SECRET, last + 1).err(), Some(IssueError::ExpiryOutOfRange));
    let t = generate_token_at("user-1", SECRET, last).expect("issued");
    assert_eq!(decode_token_at(&t, SECRET, last).expect("valid").exp, u64::MAX);
    assert!(generate_token_at("user-1", SECRET, 0).is_ok());
}

#[test]
fn claims_are_judged_against_the_clock() {
    assert_eq!(check_claims(None, 5).err(), Some(TokenError::Malformed));
    assert_eq!(check_claims(Some(("a".to_string(), 10)), 10).err(), Some(TokenError::Expired));
    assert_eq!(check_claims(Some(("a".to_string(), 10)), 11).err(), Some(TokenError::Expired));
    let c = check_claims(Some(("a".to_string(), 10)), 9).expect("valid");
    assert_eq!(c.sub, "a");
    assert_eq!(c.exp, 10);
    assert!(check_claims(Some(("a".to_string(), 1)), 0).is_ok());
    assert_eq!(check_claims(Some(("a".to_string(), 0)), 0).err(), Some(TokenError::Expired));
}

#[test]
fn bearer_prefix_is_stripped() {
    assert_eq!(bearer_token("Bearer abc"), Some("abc"));
    assert_eq!(bearer_token("Bearer "), Some(""));
    assert_eq!(bearer_token("Bearer"), None);
    assert_eq!(bearer_token("bearer abc"), None);
    assert_eq!(bearer_token("Basic abc123"), None);
    assert_eq!(bearer_token("Bearer é"), Some("é"));
}

#[test]
fn header_resolves_to_principal() {
    let token = generate_token("user-1", SECRET).expect("issued");
    let header = format!("Bearer {}", token);
    let user = authorize(Some(&header), SECRET).expect("authorized");
    assert_eq!(user.user_id, "user-1");
}

#[test]
fn missing_or_wrong_header_is_unauthorized() {
    let token = generate_token_at("user-1", SECRET, 1_000).expect("issued");
    assert_eq!(authorize_at(None, SECRET, 1_000).err(), Some(AuthError::Unauthorized));
    assert_eq!(authorize_at(Some("Basic abc123"), SECRET, 1_000).err(), Some(AuthError::Unauthorized));
    assert_eq!(authorize_at(Some(&token), SECRET, 1_000).err(), Some(AuthError::Unauthorized));
    let header = format!("Bearer {}", token);
    assert_eq!(authorize_at(Some(&header), SECRET, 87_400).err(), Some(AuthError::Unauthorized));
    assert_eq!(authorize_at(Some(&header), b"other", 1_000).err(), Some(AuthError::Unauthorized));
    assert_eq!(authorize_at(Some(&header), SECRET, 1_000).expect("ok").user_id, "user-1");
}

#[test]
fn issuing_is_deterministic() {
    let a = generate_token_at("user-1", SECRET, 5_000).expect("issued");
    let b = generate_token_at("user-1", SECRET, 5_000).expect("issued");
    assert_eq!(a, b);
    let c = generate_token_at("user-1", SECRET, 5_001).expect("issued");
    assert_ne!(a, c);
    let d = generate_token_at("user-1", b"another-secret", 5_000).expect("issued");
    assert_ne!(a, d);
}
