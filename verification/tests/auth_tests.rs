use backend::auth::{
    check_login, issue_tokens, jwt_err_to_status, logout_cookies, refresh_token_hash,
    register_outcome, register_password_hash, reissue_access, require_live_session, require_row,
    session_cookies, valid_access, valid_refresh, AuthenticatedUser, DbError, Rejection,
};
use backend::cookies::{cookie_clear, cookie_set, extract_cookie};
use backend::digest::sha256;
use backend::jwt::{JwtError, ACCESS_TTL, REFRESH_TTL};
use backend::models::{AuthRequest, Claims};
use backend::password::hash_password;
use jsonwebtoken::{decode, DecodingKey, Validation};

fn req(u: &str, p: &str) -> AuthRequest {
    AuthRequest { username: u.to_string(), password: p.to_string() }
}

fn claims(kind: &str) -> Claims {
    Claims { sub: "erin".to_string(), exp: 10, token_type: kind.to_string() }
}

#[test]
fn request_validation_bounds() {
    assert!(req("abc", "12345678").is_valid());
    assert!(req("abcdefghij", "12345678").is_valid());
    assert!(!req("ab", "12345678").is_valid());
    assert!(!req("abcdefghijk", "12345678").is_valid());
    assert!(!req("abc", "1234567").is_valid());
    assert!(req("äöü", "ééééééééé").is_valid());
    assert!(!req("äö", "12345678").is_valid());
}

#[test]
fn status_codes() {
    assert_eq!(Rejection::BadRequest.status_code(), 400);
    assert_eq!(Rejection::Unauthorized.status_code(), 401);
    assert_eq!(Rejection::Conflict.status_code(), 409);
    assert_eq!(Rejection::InternalServerError.status_code(), 500);
}

#[test]
fn jwt_errors_map_to_status() {
    assert_eq!(jwt_err_to_status(JwtError::TimeError), Rejection::InternalServerError);
    assert_eq!(jwt_err_to_status(JwtError::EncodingError), Rejection::InternalServerError);
    assert_eq!(jwt_err_to_status(JwtError::DecodingError), Rejection::Unauthorized);
}

#[test]
fn register_rejects_malformed_credentials() {
    assert_eq!(register_password_hash(&req("ab", "12345678")), Err(Rejection::BadRequest));
    assert_eq!(register_password_hash(&req("abc", "short")), Err(Rejection::BadRequest));
}

#[test]
fn registered_password_logs_in() {
    let r = req("frank", "correct horse");
    let h = register_password_hash(&r).unwrap();
    assert!(h.starts_with("$argon2id$"));
    assert!(!h.contains("correct horse"));
    assert_eq!(check_login(&r, Some((7, h.as_str())), &h), Ok(7));
    assert_eq!(check_login(&req("frank", "wrong horse"), Some((7, h.as_str())), &h), Err(Rejection::Unauthorized));
}

#[test]
fn hashes_are_salted() {
    let a = hash_password("same password").unwrap();
    let b = hash_password("same password").unwrap();
    assert_ne!(a, b);
}

#[test]
fn unknown_user_is_refused_even_with_matching_dummy() {
    let dummy = hash_password("dummy password").unwrap();
    assert_eq!(check_login::<i32>(&req("nobody", "dummy password"), None, &dummy), Err(Rejection::Unauthorized));
}

#[test]
fn unparsable_hash_is_server_error() {
    assert_eq!(check_login::<i32>(&req("u", "p"), None, "not a hash"), Err(Rejection::InternalServerError));
    assert_eq!(check_login(&req("u", "p"), Some((1, "garbage")), "x"), Err(Rejection::InternalServerError));
}

#[test]
fn register_outcomes() {
    assert_eq!(register_outcome(Ok(())), Ok(()));
    assert_eq!(
        register_outcome(Err(DbError { sqlstate: Some("23505".to_string()) })),
        Err(Rejection::Conflict)
    );
    assert_eq!(
        register_outcome(Err(DbError { sqlstate: Some("23503".to_string()) })),
        Err(Rejection::InternalServerError)
    );
    assert_eq!(register_outcome(Err(DbError { sqlstate: None })), Err(Rejection::InternalServerError));
}

#[test]
fn issued_tokens_and_cookies() {
    let p = issue_tokens("gina", "secret").unwrap();
    assert_eq!(p.refresh_hash, sha256(&p.refresh));
    let v = decode::<serde_json::Value>(&p.access, &DecodingKey::from_secret(b"secret"), &Validation::default())
        .unwrap()
        .claims;
    assert_eq!(v["token_type"], "access");
    assert_eq!(v["sub"], "gina");
    let v = decode::<serde_json::Value>(&p.refresh, &DecodingKey::from_secret(b"secret"), &Validation::default())
        .unwrap()
        .claims;
    assert_eq!(v["token_type"], "refresh");
    let cs = session_cookies(&p);
    assert_eq!(cs, vec![
        cookie_set("access_token", &p.access, ACCESS_TTL),
        cookie_set("refresh_token", &p.refresh, REFRESH_TTL),
    ]);
}

#[test]
fn logout_clears_both_cookies() {
    assert_eq!(logout_cookies(), vec![cookie_clear("access_token"), cookie_clear("refresh_token")]);
}

#[test]
fn stored_refresh_key_is_found_from_returned_cookies() {
    let p = issue_tokens("hank", "secret").unwrap();
    let header = format!("access_token={}; refresh_token={}", p.access, p.refresh);
    assert_eq!(refresh_token_hash(Some(&header)), Some(p.refresh_hash.clone()));
    assert_eq!(extract_cookie(Some(&header), "access_token"), Some(p.access.clone()));
    assert_eq!(refresh_token_hash(Some("access_token=a")), None);
    assert_eq!(refresh_token_hash(None), None);
}

#[test]
fn authenticate_accepts_only_access_tokens() {
    let u = AuthenticatedUser::authenticate(Some(Ok(claims("access")))).ok().unwrap();
    assert_eq!(u.0.sub, "erin");
    assert!(matches!(AuthenticatedUser::authenticate(Some(Ok(claims("refresh")))), Err(Rejection::Unauthorized)));
    assert!(matches!(AuthenticatedUser::authenticate(Some(Err(JwtError::DecodingError))), Err(Rejection::Unauthorized)));
    assert!(matches!(AuthenticatedUser::authenticate(Some(Err(JwtError::TimeError))), Err(Rejection::Unauthorized)));
    assert!(matches!(AuthenticatedUser::authenticate(None), Err(Rejection::Unauthorized)));
}

#[test]
fn valid_access_fast_path() {
    assert_eq!(valid_access(Some(Ok(claims("access")))).map(|c| c.sub), Some("erin".to_string()));
    assert!(valid_access(Some(Ok(claims("refresh")))).is_none());
    assert!(valid_access(Some(Err(JwtError::DecodingError))).is_none());
    assert!(valid_access(None).is_none());
}

#[test]
fn valid_refresh_outcomes() {
    assert_eq!(valid_refresh(Some(Ok(claims("refresh")))).ok().map(|c| c.token_type), Some("refresh".to_string()));
    assert!(matches!(valid_refresh(Some(Ok(claims("access")))), Err(Rejection::Unauthorized)));
    assert!(matches!(valid_refresh(Some(Err(JwtError::DecodingError))), Err(Rejection::Unauthorized)));
    assert!(matches!(valid_refresh(Some(Err(JwtError::TimeError))), Err(Rejection::InternalServerError)));
    assert!(matches!(valid_refresh(None), Err(Rejection::Unauthorized)));
}

#[test]
fn store_answers() {
    assert_eq!(require_row::<i64>(Ok(Some(7))), Ok(7));
    assert_eq!(require_row::<i64>(Ok(None)), Err(Rejection::Unauthorized));
    assert_eq!(require_row::<i64>(Err(DbError { sqlstate: None })), Err(Rejection::InternalServerError));
    assert_eq!(require_live_session(Ok(Some(true))), Ok(()));
    assert_eq!(require_live_session(Ok(Some(false))), Err(Rejection::Unauthorized));
    assert_eq!(require_live_session(Ok(None)), Err(Rejection::Unauthorized));
    assert_eq!(require_live_session(Err(DbError { sqlstate: None })), Err(Rejection::InternalServerError));
}

#[test]
fn reissued_access_cookie_carries_access_token() {
    let c = reissue_access(&claims("refresh"), "secret").unwrap();
    let t = extract_cookie(Some(&c), "access_token").unwrap();
    assert!(c.ends_with("; Path=/; HttpOnly; Secure; SameSite=Lax; Max-Age=900"));
    let v = decode::<serde_json::Value>(&t, &DecodingKey::from_secret(b"secret"), &Validation::default())
        .unwrap()
        .claims;
    assert_eq!(v["token_type"], "access");
    assert_eq!(v["sub"], "erin");
}

#[test]
fn hash_carries_sixteen_byte_salt() {
    let h = hash_password("").unwrap();
    let parts: Vec<&str> = h.split('$').collect();
    assert_eq!(parts.len(), 6);
    let salt = parts[4];
    assert_eq!(salt.len(), 22);
    assert!(salt.chars().all(|c| c.is_ascii_alphanumeric() || c == '+' || c == '/'));
}
