use backend::auth::{
    issue_tokens, issue_tokens_at, login_writes, logout_writes, reissue_access_at, rotation_writes,
    validate_request, write_outcome, DbError, Rejection, SessionWrite, TokenPair,
};
use backend::cookies::cookie_set;
use backend::digest::sha256;
use backend::jwt::{encode_claims, make_jwt_at, token_claims, JwtError};
use backend::models::{AuthRequest, Claims};
use backend::rate_limit::RateLimitConfigs;

fn pair() -> TokenPair {
    TokenPair { access: "A".to_string(), refresh: "R".to_string(), refresh_hash: "h".to_string() }
}

#[test]
fn validate_request_cases() {
    let ok = AuthRequest { username: "abc".to_string(), password: "12345678".to_string() };
    let bad = AuthRequest { username: "ab".to_string(), password: "12345678".to_string() };
    assert_eq!(validate_request(&ok), Ok(()));
    assert_eq!(validate_request(&bad), Err(Rejection::BadRequest));
}

#[test]
fn make_jwt_at_is_the_signed_claims() {
    let t = make_jwt_at("kim", 900, "access", "k", 1_700_000_000).unwrap();
    let c = token_claims("kim", 900, "access", 1_700_000_000).unwrap();
    assert_eq!(t, encode_claims(&c, "k").unwrap());
    assert_eq!(t, make_jwt_at("kim", 900, "access", "k", 1_700_000_000).unwrap());
    assert_ne!(t, make_jwt_at("kim", 900, "access", "k", 1_700_000_001).unwrap());
    assert_eq!(make_jwt_at("kim", 2, "access", "k", u64::MAX - 1), Err(JwtError::TimeError));
}

#[test]
fn encode_claims_never_fails() {
    let c = Claims { sub: "\u{0}\"\\".to_string(), exp: usize::MAX, token_type: String::new() };
    assert!(encode_claims(&c, "").is_ok());
}

#[test]
fn issue_tokens_at_fixes_both_tokens() {
    let p = issue_tokens_at("lee", "k", 100, 200).unwrap();
    assert_eq!(p.access, make_jwt_at("lee", 900, "access", "k", 100).unwrap());
    assert_eq!(p.refresh, make_jwt_at("lee", 604800, "refresh", "k", 200).unwrap());
    assert_eq!(p.refresh_hash, sha256(&p.refresh));
    assert!(matches!(issue_tokens_at("lee", "k", u64::MAX, 0), Err(Rejection::InternalServerError)));
    assert!(matches!(issue_tokens_at("lee", "k", 0, u64::MAX), Err(Rejection::InternalServerError)));
}

#[test]
fn reissue_access_at_cookie() {
    let c = Claims { sub: "lee".to_string(), exp: 0, token_type: "refresh".to_string() };
    let cookie = reissue_access_at(&c, "k", 100).unwrap();
    let t = make_jwt_at("lee", 900, "access", "k", 100).unwrap();
    assert_eq!(cookie, cookie_set("access_token", &t, 900));
    assert_eq!(reissue_access_at(&c, "k", u64::MAX), Err(Rejection::InternalServerError));
}

#[test]
fn login_revokes_then_stores() {
    let w = login_writes(5, &pair());
    assert_eq!(w.len(), 2);
    assert!(matches!(&w[0], SessionWrite::RevokeUser(5)));
    assert!(matches!(&w[1], SessionWrite::Store(5, h) if h == "h"));
}

#[test]
fn rotation_stores_new_token() {
    let w = rotation_writes(9, &pair());
    assert_eq!(w.len(), 1);
    assert!(matches!(&w[0], SessionWrite::Store(9, h) if h == "h"));
}

#[test]
fn logout_revokes_presented_token() {
    let p = issue_tokens("mia", "k").unwrap();
    let header = format!("access_token={}; refresh_token={}", p.access, p.refresh);
    let w = logout_writes::<i32>(Some(&header));
    assert_eq!(w.len(), 1);
    assert!(matches!(&w[0], SessionWrite::RevokeToken(d) if *d == p.refresh_hash));
    assert!(logout_writes::<i32>(Some("access_token=x")).is_empty());
    assert!(logout_writes::<i32>(None).is_empty());
}

#[test]
fn write_failures() {
    let err = || Err(DbError { sqlstate: None });
    assert_eq!(write_outcome(&SessionWrite::<i32>::RevokeUser(1), err()), Err(Rejection::InternalServerError));
    assert_eq!(write_outcome(&SessionWrite::<i32>::Store(1, "h".to_string()), err()), Err(Rejection::InternalServerError));
    assert_eq!(write_outcome(&SessionWrite::<i32>::RevokeToken("h".to_string()), err()), Ok(()));
    assert_eq!(write_outcome(&SessionWrite::<i32>::RevokeUser(1), Ok(())), Ok(()));
}

#[test]
fn rate_limit_configs_build() {
    let rl = RateLimitConfigs::new();
    assert!(std::sync::Arc::strong_count(&rl.auth.config) >= 1);
    assert!(std::sync::Arc::strong_count(&rl.general.config) >= 1);
}

#[test]
fn session_cookies_are_valid_header_values() {
    let p = issue_tokens("noa", "k").unwrap();
    for c in backend::auth::session_cookies(&p).into_iter().chain(backend::auth::logout_cookies()) {
        assert!(c.chars().all(|ch| (ch as u32 >= 32 && ch as u32 != 127) || ch == '\t'));
    }
}

#[test]
fn lookup_failures_are_server_errors() {
    assert_eq!(backend::auth::require_lookup::<Option<i32>>(Ok(None)), Ok(None));
    assert_eq!(backend::auth::require_lookup::<Option<i32>>(Ok(Some(3))), Ok(Some(3)));
    assert_eq!(
        backend::auth::require_lookup::<Option<i32>>(Err(DbError { sqlstate: None })),
        Err(Rejection::InternalServerError)
    );
}

#[test]
fn access_and_refresh_tokens_differ() {
    let p = issue_tokens_at("ola", "k", 100, 100).unwrap();
    assert_ne!(p.access, p.refresh);
    let c = Claims { sub: "ola".to_string(), exp: 1, token_type: "access".to_string() };
    assert_eq!(c.clone().sub, "ola");
}
