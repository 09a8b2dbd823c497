//! The decisions of the authentication endpoints: which requests are
//! refused and with which status, which tokens are issued, and which cookies
//! are set. The endpoints read the request, the store and the clock and hand
//! what they read to these functions.

use vstd::prelude::*;
use crate::cookies::{
    cookie_clear, cookie_set, cookie_value, extract_cookie, clear_cookie_text, set_cookie_text,
    is_plain_cookie_name, is_plain_cookie_value, lemma_set_cookie_read_back, is_header_value_text,
    lemma_set_cookie_is_header_value, lemma_clear_cookie_is_header_value, lemma_cookie_read_back,
    lemma_two_cookies_read_back,
};
use crate::digest::{sha256, sha256_of};
use crate::jwt::{
    claims_json, expiry, hs256_token, is_token_char, is_token_text, issued_token,
    lemma_claims_kinds_differ, make_jwt_at, now_secs, signed_claims, JwtError, ACCESS_TTL,
    REFRESH_TTL,
};
use crate::models::{valid_credentials, AuthRequest, Claims};
use crate::password::{
    argon2_accepts, argon2_check, argon2_phc, hash_password, password_matches, phc_parses,
};
use crate::text::{hex_lower, is_text};
use vstd::utf8::encode_utf8;

verus! {

/// Why a request is refused.
#[derive(Debug, Clone, Copy, PartialEq, Eq, Structural)]
pub enum Rejection {
    BadRequest,
    Unauthorized,
    Conflict,
    InternalServerError,
}

/// The HTTP status code of a refusal.
pub open spec fn status_code_of(r: Rejection) -> u16 {
    match r {
        Rejection::BadRequest => 400,
        Rejection::Unauthorized => 401,
        Rejection::Conflict => 409,
        Rejection::InternalServerError => 500,
    }
}

impl Rejection {
    /// The HTTP status code of this refusal.
    pub fn status_code(self) -> (r: u16)
        ensures
            r == status_code_of(self),
    {
        match self {
            Rejection::BadRequest => 400,
            Rejection::Unauthorized => 401,
            Rejection::Conflict => 409,
            Rejection::InternalServerError => 500,
        }
    }
}

/// The refusal for a token error: a token that does not decode is
/// `Unauthorized`, a token that cannot be made is a server error.
pub open spec fn jwt_status(e: JwtError) -> Rejection {
    if e == JwtError::DecodingError {
        Rejection::Unauthorized
    } else {
        Rejection::InternalServerError
    }
}

/// The refusal for a token error.
pub fn jwt_err_to_status(e: JwtError) -> (r: Rejection)
    ensures
        r == jwt_status(e),
{
    match e {
        JwtError::TimeError => Rejection::InternalServerError,
        JwtError::EncodingError => Rejection::InternalServerError,
        JwtError::DecodingError => Rejection::Unauthorized,
    }
}

/// The name of the cookie that holds the access token.
pub open spec fn access_cookie_name() -> Seq<char> {
    "access_token"@
}

/// The name of the cookie that holds the refresh token.
pub open spec fn refresh_cookie_name() -> Seq<char> {
    "refresh_token"@
}

/// An error reported by the database, with its SQLSTATE code where the
/// database gave one.
pub struct DbError {
    pub sqlstate: Option<String>,
}

/// The SQLSTATE code of a violated unique constraint.
pub open spec fn unique_violation() -> Seq<char> {
    "23505"@
}

/// The first check of a register or login request: `BadRequest` exactly for
/// malformed credentials.
pub fn validate_request(req: &AuthRequest) -> (r: Result<(), Rejection>)
    ensures
        valid_credentials(req.username@, req.password@) ==> r == Ok::<(), Rejection>(()),
        !valid_credentials(req.username@, req.password@) ==> r == Err::<(), Rejection>(
            Rejection::BadRequest,
        ),
{
    if req.is_valid() {
        Ok(())
    } else {
        Err(Rejection::BadRequest)
    }
}

/// The password hash to store for a registration: `BadRequest` for malformed
/// credentials; a hash that accepts the password for well-formed ones, unless
/// the password is longer than Argon2 takes, which is a server error.
pub fn register_password_hash(req: &AuthRequest) -> (r: Result<String, Rejection>)
    ensures
        !valid_credentials(req.username@, req.password@) <==> r == Err::<String, Rejection>(
            Rejection::BadRequest,
        ),
        valid_credentials(req.username@, req.password@) && encode_utf8(req.password@).len()
            <= 0xFFFF_FFFF ==> (r is Ok),
        r matches Err(e) ==> e == Rejection::BadRequest || e == Rejection::InternalServerError,
        r matches Ok(h) ==> (exists|salt: Seq<char>| h@ == #[trigger] argon2_phc(req.password@, salt))
            && password_matches(req.password@, h@),
{
    validate_request(req)?;
    match hash_password(req.password.as_str()) {
        Some(h) => Ok(h),
        None => Err(Rejection::InternalServerError),
    }
}

/// The answer to a failed insertion of a new user: a taken user name is a
/// `Conflict`, any other failure a server error.
pub open spec fn insert_user_status(e: DbError) -> Rejection {
    if e.sqlstate matches Some(code) && code@ == unique_violation() {
        Rejection::Conflict
    } else {
        Rejection::InternalServerError
    }
}

/// The outcome of a registration, given the outcome of storing the user.
pub fn register_outcome(stored: Result<(), DbError>) -> (r: Result<(), Rejection>)
    ensures
        match stored {
            Ok(()) => (r is Ok),
            Err(e) => r == Err::<(), Rejection>(insert_user_status(e)),
        },
{
    match stored {
        Ok(()) => Ok(()),
        Err(e) => match &e.sqlstate {
            Some(code) => {
                if is_text(code, "23505") {
                    Err(Rejection::Conflict)
                } else {
                    Err(Rejection::InternalServerError)
                }
            },
            None => Err(Rejection::InternalServerError),
        },
    }
}

/// The verdict on a login, given the password sent, the stored hash of the
/// user where the user exists, and the hash that is checked in its place
/// where the user does not. An unparsable hash is a server error; otherwise
/// only an existing user whose hash accepts the password gets in.
pub open spec fn login_verdict(password: Seq<char>, stored: Option<Seq<char>>, dummy: Seq<char>) -> Result<(), Rejection> {
    let checked = match stored {
        Some(h) => h,
        None => dummy,
    };
    if !phc_parses(checked) {
        Err(Rejection::InternalServerError)
    } else if stored is Some && argon2_accepts(password, checked) {
        Ok(())
    } else {
        Err(Rejection::Unauthorized)
    }
}

/// Checks the password of a login, given the row of the user (its key and
/// stored hash) where the user exists, and gives the user's key. The password
/// is checked against the stored hash, or against `dummy_hash` where the user
/// does not exist, so that both cases take the same work.
pub fn check_login<U>(req: &AuthRequest, row: Option<(U, &str)>, dummy_hash: &str) -> (r: Result<U, Rejection>)
    ensures
        match login_verdict(
            req.password@,
            match row {
                Some(p) => Some(p.1@),
                None => None,
            },
            dummy_hash@,
        ) {
            Ok(()) => (row matches Some(p) && r == Ok::<U, Rejection>(p.0)),
            Err(e) => r == Err::<U, Rejection>(e),
        },
{
    let (user, checked) = match row {
        Some((u, h)) => (Some(u), h),
        None => (None, dummy_hash),
    };
    let verdict = match argon2_check(req.password.as_str(), checked) {
        Ok(ok) => Some(ok),
        Err(_) => None,
    };
    match login_outcome(user.is_some(), verdict) {
        Ok(()) => match user {
            Some(u) => Ok(u),
            None => Err(Rejection::Unauthorized),
        },
        Err(e) => Err(e),
    }
}

/// The verdict on a login, given whether the user exists and the answer of
/// the password check: `None` where the checked hash did not parse.
pub fn login_outcome(user_exists: bool, verdict: Option<bool>) -> (r: Result<(), Rejection>)
    ensures
        match verdict {
            None => r == Err::<(), Rejection>(Rejection::InternalServerError),
            Some(ok) => if user_exists && ok {
                r == Ok::<(), Rejection>(())
            } else {
                r == Err::<(), Rejection>(Rejection::Unauthorized)
            },
        },
{
    match verdict {
        None => Err(Rejection::InternalServerError),
        Some(ok) => {
            if user_exists && ok {
                Ok(())
            } else {
                Err(Rejection::Unauthorized)
            }
        },
    }
}

/// A fresh pair of tokens and the digest under which the refresh token is
/// stored.
pub struct TokenPair {
    pub access: String,
    pub refresh: String,
    pub refresh_hash: String,
}

/// The token pair for `username` whose access token is made at Unix time
/// `access_now` and whose refresh token is made at `refresh_now`: a server
/// error where an expiry does not fit in 64 bits, and otherwise exactly the
/// two signed claims and the digest of the refresh token.
pub fn issue_tokens_at(username: &str, secret: &str, access_now: u64, refresh_now: u64) -> (r: Result<
    TokenPair,
    Rejection,
>)
    ensures
        access_now + ACCESS_TTL > u64::MAX || refresh_now + REFRESH_TTL > u64::MAX ==> r == Err::<
            TokenPair,
            Rejection,
        >(Rejection::InternalServerError),
        access_now + ACCESS_TTL <= u64::MAX && refresh_now + REFRESH_TTL <= u64::MAX ==> (r matches Ok(p)
            && p.access@ == signed_claims(username@, expiry(access_now, ACCESS_TTL), "access"@, secret@)
            && p.refresh@ == signed_claims(username@, expiry(refresh_now, REFRESH_TTL), "refresh"@, secret@)
            && is_token_text(p.access@) && is_token_text(p.refresh@)
            && p.refresh_hash@ == hex_lower(sha256_of(p.refresh@))),
        r matches Ok(p) ==> p.access@ != p.refresh@,
{
    let access = match make_jwt_at(username, ACCESS_TTL, "access", secret, access_now) {
        Ok(t) => t,
        Err(e) => return Err(jwt_err_to_status(e)),
    };
    let refresh = match make_jwt_at(username, REFRESH_TTL, "refresh", secret, refresh_now) {
        Ok(t) => t,
        Err(e) => return Err(jwt_err_to_status(e)),
    };
    proof {
        lemma_claims_kinds_differ(
            username@,
            expiry(access_now, ACCESS_TTL),
            username@,
            expiry(refresh_now, REFRESH_TTL),
        );
        assert(hs256_token(claims_json(username@, expiry(refresh_now, REFRESH_TTL), "refresh"@), secret@)
            == refresh@);
    }
    let refresh_hash = sha256(refresh.as_str());
    Ok(TokenPair { access, refresh, refresh_hash })
}

/// Issues an access and a refresh token for `username`, both at one clock
/// reading, so that the refresh token outlives the access token by exactly
/// `REFRESH_TTL - ACCESS_TTL` seconds; a server error where the clock reads
/// before the Unix epoch or an expiry does not fit in 64 bits.
pub fn issue_tokens(username: &str, secret: &str) -> (r: Result<TokenPair, Rejection>)
    ensures
        r matches Ok(p) ==> {
            &&& issued_token(p.access@, username@, ACCESS_TTL, "access"@, secret@)
            &&& issued_token(p.refresh@, username@, REFRESH_TTL, "refresh"@, secret@)
            &&& p.refresh_hash@ == hex_lower(sha256_of(p.refresh@))
            &&& p.access@ != p.refresh@
        },
        r matches Ok(p) ==> exists|now: u64|
            #![trigger signed_claims(username@, expiry(now, ACCESS_TTL), "access"@, secret@)]
            now + REFRESH_TTL <= u64::MAX && p.access@ == signed_claims(
                username@,
                expiry(now, ACCESS_TTL),
                "access"@,
                secret@,
            ) && p.refresh@ == signed_claims(username@, expiry(now, REFRESH_TTL), "refresh"@, secret@),
        r matches Err(e) ==> e == Rejection::InternalServerError,
{
    let now = match now_secs() {
        Ok(n) => n,
        Err(e) => return Err(jwt_err_to_status(e)),
    };
    let r = issue_tokens_at(username, secret, now, now);
    proof {
        if r is Ok {
            let p = r->Ok_0;
            assert(signed_claims(username@, expiry(now, ACCESS_TTL), "access"@, secret@) == p.access@);
            assert(signed_claims(username@, expiry(now, REFRESH_TTL), "refresh"@, secret@) == p.refresh@);
        }
    }
    r
}

/// The two `Set-Cookie` values that hand a token pair to the client.
pub fn session_cookies(pair: &TokenPair) -> (r: Vec<String>)
    ensures
        r@.len() == 2,
        r@[0]@ == set_cookie_text(access_cookie_name(), pair.access@, ACCESS_TTL as nat),
        r@[1]@ == set_cookie_text(refresh_cookie_name(), pair.refresh@, REFRESH_TTL as nat),
{
    let mut r: Vec<String> = Vec::new();
    r.push(cookie_set("access_token", pair.access.as_str(), ACCESS_TTL));
    r.push(cookie_set("refresh_token", pair.refresh.as_str(), REFRESH_TTL));
    r
}

/// The two `Set-Cookie` values that end a session.
pub fn logout_cookies() -> (r: Vec<String>)
    ensures
        r@.len() == 2,
        r@[0]@ == clear_cookie_text(access_cookie_name()),
        r@[1]@ == clear_cookie_text(refresh_cookie_name()),
{
    let mut r: Vec<String> = Vec::new();
    r.push(cookie_clear("access_token"));
    r.push(cookie_clear("refresh_token"));
    r
}

/// The digest of the refresh token in a `Cookie` header, where it holds one:
/// the key under which that token is stored.
pub fn refresh_token_hash(cookie_header: Option<&str>) -> (r: Option<String>)
    ensures
        match cookie_header {
            None => (r is None),
            Some(h) => match cookie_value(h@, refresh_cookie_name()) {
                None => (r is None),
                Some(v) => r matches Some(d) && d@ == hex_lower(sha256_of(v)),
            },
        },
{
    match extract_cookie(cookie_header, "refresh_token") {
        Some(raw) => Some(sha256(raw.as_str())),
        None => None,
    }
}

/// A write to the store of refresh tokens.
pub enum SessionWrite<U> {
    /// Delete every stored refresh token of a user.
    RevokeUser(U),
    /// Delete the stored refresh token with this digest.
    RevokeToken(String),
    /// Store, for a user, the digest of a new refresh token that expires
    /// `REFRESH_TTL` seconds from now.
    Store(U, String),
}

/// The writes of a login of `user` that was given `pair`: first every earlier
/// refresh token of the user is revoked, then the new one is stored.
pub fn login_writes<U: Copy>(user: U, pair: &TokenPair) -> (r: Vec<SessionWrite<U>>)
    ensures
        r@ == seq![SessionWrite::RevokeUser(user), SessionWrite::Store(user, pair.refresh_hash)],
{
    let mut r: Vec<SessionWrite<U>> = Vec::new();
    r.push(SessionWrite::RevokeUser(user));
    r.push(SessionWrite::Store(user, pair.refresh_hash.clone()));
    r
}

/// The writes of a refresh that consumed the stored token of `user` and gave
/// `pair`: the new refresh token is stored.
pub fn rotation_writes<U>(user: U, pair: &TokenPair) -> (r: Vec<SessionWrite<U>>)
    ensures
        r@ == seq![SessionWrite::Store(user, pair.refresh_hash)],
{
    let mut r: Vec<SessionWrite<U>> = Vec::new();
    r.push(SessionWrite::Store(user, pair.refresh_hash.clone()));
    r
}

/// The digest that a logout revokes, for a `Cookie` header text: that of the
/// refresh token in it, where it holds one.
pub open spec fn revoked_digest(header: Seq<char>) -> Option<Seq<char>> {
    match cookie_value(header, refresh_cookie_name()) {
        Some(v) => Some(hex_lower(sha256_of(v))),
        None => None,
    }
}

/// The writes of a logout: the refresh token that the request carries, if
/// any, is revoked.
pub fn logout_writes<U>(cookie_header: Option<&str>) -> (r: Vec<SessionWrite<U>>)
    ensures
        cookie_header is None ==> r@.len() == 0,
        cookie_header matches Some(h) ==> match cookie_value(h@, refresh_cookie_name()) {
            Some(v) => (r@.len() == 1 && (r@[0] matches SessionWrite::RevokeToken(x) && x@ == hex_lower(
                sha256_of(v),
            ))),
            None => (r@.len() == 0),
        },
        match cookie_header {
            Some(h) => match revoked_digest(h@) {
                Some(d) => (r@.len() == 1 && (r@[0] matches SessionWrite::RevokeToken(x) && x@ == d)),
                None => (r@.len() == 0),
            },
            None => (r@.len() == 0),
        },
{
    let mut r: Vec<SessionWrite<U>> = Vec::new();
    match refresh_token_hash(cookie_header) {
        Some(d) => r.push(SessionWrite::RevokeToken(d)),
        None => {},
    }
    r
}

/// Whether the failure of a write fails the request: a revocation at logout
/// is best effort, every other write is required.
pub open spec fn write_required<U>(w: SessionWrite<U>) -> bool {
    !(w is RevokeToken)
}

/// The outcome of one write to the store: a failed required write is a
/// server error.
pub fn write_outcome<U>(w: &SessionWrite<U>, done: Result<(), DbError>) -> (r: Result<(), Rejection>)
    ensures
        (done is Err && write_required(*w)) ==> r == Err::<(), Rejection>(Rejection::InternalServerError),
        !(done is Err && write_required(*w)) ==> r == Ok::<(), Rejection>(()),
{
    match done {
        Ok(()) => Ok(()),
        Err(_) => match w {
            SessionWrite::RevokeToken(_) => Ok(()),
            _ => Err(Rejection::InternalServerError),
        },
    }
}

/// A request authenticated by its access token.
pub struct AuthenticatedUser(pub Claims);

/// The claims of a token are those of an access token.
pub open spec fn is_access(c: Claims) -> bool {
    c.token_type@ == "access"@
}

/// The claims of a token are those of a refresh token.
pub open spec fn is_refresh(c: Claims) -> bool {
    c.token_type@ == "refresh"@
}

impl AuthenticatedUser {
    /// Authenticates a request from its access token: `None` where the request
    /// has no access cookie, otherwise the outcome of checking that token.
    /// Every failure is `Unauthorized`, and so is a token of another kind.
    pub fn authenticate(access: Option<Result<Claims, JwtError>>) -> (r: Result<AuthenticatedUser, Rejection>)
        ensures
            match access {
                Some(Ok(c)) => if is_access(c) {
                    r matches Ok(u) && u.0 == c
                } else {
                    r == Err::<AuthenticatedUser, Rejection>(Rejection::Unauthorized)
                },
                _ => r == Err::<AuthenticatedUser, Rejection>(Rejection::Unauthorized),
            },
    {
        match access {
            Some(Ok(c)) => {
                if is_text(&c.token_type, "access") {
                    Ok(AuthenticatedUser(c))
                } else {
                    Err(Rejection::Unauthorized)
                }
            },
            _ => Err(Rejection::Unauthorized),
        }
    }
}

/// The claims of a valid access token, where the request carries one.
pub fn valid_access(access: Option<Result<Claims, JwtError>>) -> (r: Option<Claims>)
    ensures
        match access {
            Some(Ok(c)) => if is_access(c) {
                r == Some(c)
            } else {
                (r is None)
            },
            _ => (r is None),
        },
{
    match access {
        Some(Ok(c)) => {
            if is_text(&c.token_type, "access") {
                Some(c)
            } else {
                None
            }
        },
        _ => None,
    }
}

/// The claims of the refresh token of a request: `None` where the request has
/// no refresh cookie, otherwise the outcome of checking that token. A missing
/// cookie or a token of another kind is `Unauthorized`; a token error is
/// answered as `jwt_status` says.
pub fn valid_refresh(refresh: Option<Result<Claims, JwtError>>) -> (r: Result<Claims, Rejection>)
    ensures
        match refresh {
            None => r == Err::<Claims, Rejection>(Rejection::Unauthorized),
            Some(Err(e)) => r == Err::<Claims, Rejection>(jwt_status(e)),
            Some(Ok(c)) => if is_refresh(c) {
                r == Ok::<Claims, Rejection>(c)
            } else {
                r == Err::<Claims, Rejection>(Rejection::Unauthorized)
            },
        },
{
    match refresh {
        None => Err(Rejection::Unauthorized),
        Some(Err(e)) => Err(jwt_err_to_status(e)),
        Some(Ok(c)) => {
            if is_text(&c.token_type, "refresh") {
                Ok(c)
            } else {
                Err(Rejection::Unauthorized)
            }
        },
    }
}

/// The answer of a lookup in the store: a store failure is a server error.
pub fn require_lookup<T>(found: Result<T, DbError>) -> (r: Result<T, Rejection>)
    ensures
        match found {
            Err(_) => r == Err::<T, Rejection>(Rejection::InternalServerError),
            Ok(t) => r == Ok::<T, Rejection>(t),
        },
{
    match found {
        Err(_) => Err(Rejection::InternalServerError),
        Ok(t) => Ok(t),
    }
}

/// The row that a lookup of a stored refresh token found: a store failure is
/// a server error, no row is `Unauthorized`.
pub fn require_row<T>(found: Result<Option<T>, DbError>) -> (r: Result<T, Rejection>)
    ensures
        match found {
            Err(_) => r == Err::<T, Rejection>(Rejection::InternalServerError),
            Ok(None) => r == Err::<T, Rejection>(Rejection::Unauthorized),
            Ok(Some(t)) => r == Ok::<T, Rejection>(t),
        },
{
    match found {
        Err(_) => Err(Rejection::InternalServerError),
        Ok(None) => Err(Rejection::Unauthorized),
        Ok(Some(t)) => Ok(t),
    }
}

/// Whether a refresh token is still stored and unexpired, given the answer of
/// the store: a store failure is a server error, and an unknown answer counts
/// as no.
pub fn require_live_session(live: Result<Option<bool>, DbError>) -> (r: Result<(), Rejection>)
    ensures
        match live {
            Err(_) => r == Err::<(), Rejection>(Rejection::InternalServerError),
            Ok(Some(true)) => (r is Ok),
            Ok(_) => r == Err::<(), Rejection>(Rejection::Unauthorized),
        },
{
    match live {
        Err(_) => Err(Rejection::InternalServerError),
        Ok(Some(true)) => Ok(()),
        Ok(_) => Err(Rejection::Unauthorized),
    }
}

/// The cookie that carries a new access token for the user of accepted
/// refresh claims, made at Unix time `now`: a server error where the expiry
/// does not fit in 64 bits, and otherwise exactly that token's cookie.
pub fn reissue_access_at(claims: &Claims, secret: &str, now: u64) -> (r: Result<String, Rejection>)
    ensures
        now + ACCESS_TTL > u64::MAX ==> r == Err::<String, Rejection>(Rejection::InternalServerError),
        now + ACCESS_TTL <= u64::MAX ==> (r matches Ok(cookie) && cookie@ == set_cookie_text(
            access_cookie_name(),
            signed_claims(claims.sub@, expiry(now, ACCESS_TTL), "access"@, secret@),
            ACCESS_TTL as nat,
        ) && is_token_text(signed_claims(claims.sub@, expiry(now, ACCESS_TTL), "access"@, secret@))),
{
    match make_jwt_at(claims.sub.as_str(), ACCESS_TTL, "access", secret, now) {
        Ok(t) => Ok(cookie_set("access_token", t.as_str(), ACCESS_TTL)),
        Err(e) => Err(jwt_err_to_status(e)),
    }
}

/// A new access token for the user of accepted refresh claims, and the cookie
/// that carries it; a server error where the clock reads before the Unix
/// epoch or the expiry does not fit in 64 bits.
pub fn reissue_access(claims: &Claims, secret: &str) -> (r: Result<String, Rejection>)
    ensures
        r matches Ok(cookie) ==> exists|t: Seq<char>|
            issued_token(t, claims.sub@, ACCESS_TTL, "access"@, secret@) && cookie@ == #[trigger] set_cookie_text(
                access_cookie_name(),
                t,
                ACCESS_TTL as nat,
            ),
        r matches Err(e) ==> e == Rejection::InternalServerError,
{
    let now = match now_secs() {
        Ok(n) => n,
        Err(e) => return Err(jwt_err_to_status(e)),
    };
    let r = reissue_access_at(claims, secret, now);
    proof {
        if r is Ok {
            let t = signed_claims(claims.sub@, expiry(now, ACCESS_TTL), "access"@, secret@);
            assert(issued_token(t, claims.sub@, ACCESS_TTL, "access"@, secret@));
        }
    }
    r
}

/// A login without a stored user is refused, whatever the password and
/// whatever the hash checked in its place.
pub proof fn lemma_unknown_user_refused(password: Seq<char>, dummy: Seq<char>)
    ensures
        login_verdict(password, None, dummy) is Err,
{
}

/// A user whose stored hash was made from a password logs in with that
/// password.
pub proof fn lemma_registered_password_accepted(password: Seq<char>, stored: Seq<char>, dummy: Seq<char>)
    requires
        password_matches(password, stored),
    ensures
        login_verdict(password, Some(stored), dummy) == Ok::<(), Rejection>(()),
{
}

/// No claims are both those of an access token and those of a refresh
/// token: a refresh token never authenticates a request, and an access token
/// never renews a session.
pub proof fn lemma_token_kinds_exclusive(c: Claims)
    ensures
        !(is_access(c) && is_refresh(c)),
{
    reveal_strlit("access");
    reveal_strlit("refresh");
    if is_access(c) && is_refresh(c) {
        assert("access"@[0] == "refresh"@[0]);
    }
}

/// The `Cookie` header that a client sends back with both session cookies.
pub open spec fn session_cookie_header(access: Seq<char>, refresh: Seq<char>) -> Seq<char> {
    access_cookie_name() + "="@ + access + "; "@ + refresh_cookie_name() + "="@ + refresh
}

proof fn lemma_token_is_plain_value(t: Seq<char>)
    requires
        is_token_text(t),
    ensures
        is_plain_cookie_value(t),
{
    assert forall|k: int| 0 <= k < t.len() implies t[k] != ';' by {
        assert(is_token_char(t[k]));
    }
    if t.len() > 0 {
        assert(is_token_char(t[t.len() - 1]));
    }
}

proof fn lemma_session_names_plain()
    ensures
        is_plain_cookie_name(access_cookie_name()),
        is_plain_cookie_name(refresh_cookie_name()),
        access_cookie_name() != refresh_cookie_name(),
{
    reveal_strlit("access_token");
    reveal_strlit("refresh_token");
    assert(access_cookie_name()[0] != refresh_cookie_name()[0]);
}

/// The session cookies that a login or a refresh sets are read back: from
/// each `Set-Cookie` value, and from the header in which the client returns
/// both.
pub proof fn lemma_session_cookies_read_back(access: Seq<char>, refresh: Seq<char>)
    requires
        is_token_text(access),
        is_token_text(refresh),
    ensures
        cookie_value(set_cookie_text(access_cookie_name(), access, ACCESS_TTL as nat), access_cookie_name())
            == Some(access),
        cookie_value(set_cookie_text(refresh_cookie_name(), refresh, REFRESH_TTL as nat), refresh_cookie_name())
            == Some(refresh),
        cookie_value(session_cookie_header(access, refresh), access_cookie_name()) == Some(access),
        cookie_value(session_cookie_header(access, refresh), refresh_cookie_name()) == Some(refresh),
{
    lemma_token_is_plain_value(access);
    lemma_token_is_plain_value(refresh);
    lemma_session_names_plain();
    lemma_set_cookie_read_back(access_cookie_name(), access, ACCESS_TTL as nat);
    lemma_set_cookie_read_back(refresh_cookie_name(), refresh, REFRESH_TTL as nat);
    let h = session_cookie_header(access, refresh);
    assert(h =~= access_cookie_name() + "="@ + access + "; "@ + refresh_cookie_name() + "="@ + refresh
        + Seq::<char>::empty());
    lemma_two_cookies_read_back(access_cookie_name(), access, refresh_cookie_name(), refresh, Seq::empty());
}


/// What a client returns after a login or a refresh is found at logout: the
/// digest that the logout revokes is the digest of the refresh token that was
/// stored.
pub proof fn lemma_logout_revokes_stored_token(access: Seq<char>, refresh: Seq<char>)
    requires
        is_token_text(access),
        is_token_text(refresh),
    ensures
        revoked_digest(session_cookie_header(access, refresh)) == Some(hex_lower(sha256_of(refresh))),
{
    lemma_session_cookies_read_back(access, refresh);
}


/// Every `Set-Cookie` value that the endpoints send, for tokens the library
/// makes, is a valid HTTP header value, so adding it to a response cannot
/// fail.
pub proof fn lemma_session_cookies_are_header_values(access: Seq<char>, refresh: Seq<char>)
    requires
        is_token_text(access),
        is_token_text(refresh),
    ensures
        is_header_value_text(set_cookie_text(access_cookie_name(), access, ACCESS_TTL as nat)),
        is_header_value_text(set_cookie_text(refresh_cookie_name(), refresh, REFRESH_TTL as nat)),
        is_header_value_text(clear_cookie_text(access_cookie_name())),
        is_header_value_text(clear_cookie_text(refresh_cookie_name())),
{
    reveal_strlit("access_token");
    reveal_strlit("refresh_token");
    assert(is_header_value_text(access_cookie_name()));
    assert(is_header_value_text(refresh_cookie_name()));
    assert(is_header_value_text(access));
    assert(is_header_value_text(refresh));
    lemma_set_cookie_is_header_value(access_cookie_name(), access, ACCESS_TTL as nat);
    lemma_set_cookie_is_header_value(refresh_cookie_name(), refresh, REFRESH_TTL as nat);
    lemma_clear_cookie_is_header_value(access_cookie_name());
    lemma_clear_cookie_is_header_value(refresh_cookie_name());
}


/// The expiries of the two tokens made at one clock reading: the access token
/// expires `ACCESS_TTL` seconds after it, the refresh token `REFRESH_TTL`
/// seconds after it, so the refresh token outlives the access token by
/// `REFRESH_TTL - ACCESS_TTL` seconds.
pub proof fn lemma_session_expiries(now: u64)
    requires
        now + REFRESH_TTL <= usize::MAX,
    ensures
        expiry(now, ACCESS_TTL) == now + ACCESS_TTL,
        expiry(now, REFRESH_TTL) == now + REFRESH_TTL,
        expiry(now, REFRESH_TTL) == expiry(now, ACCESS_TTL) + (REFRESH_TTL - ACCESS_TTL),
{
}

/// A logout revokes the refresh token that the request presents, whatever
/// other cookies the header holds or lacks: in terms of the cookie lookup,
/// the revoked digest is that of the refresh cookie's value.
pub proof fn lemma_logout_revokes_presented_token(header: Seq<char>)
    ensures
        match cookie_value(header, refresh_cookie_name()) {
            Some(v) => revoked_digest(header) == Some(hex_lower(sha256_of(v))),
            None => revoked_digest(header) is None,
        },
{
}

/// A header that sends only the refresh cookie, as a client does once its
/// access cookie has expired, has that token revoked at logout.
pub proof fn lemma_logout_with_refresh_cookie_only(refresh: Seq<char>)
    requires
        is_token_text(refresh),
    ensures
        revoked_digest(refresh_cookie_name() + "="@ + refresh) == Some(hex_lower(sha256_of(refresh))),
{
    lemma_token_is_plain_value(refresh);
    lemma_session_names_plain();
    lemma_cookie_read_back(refresh_cookie_name(), refresh, Seq::empty());
    assert(refresh_cookie_name() + "="@ + refresh + Seq::<char>::empty() =~= refresh_cookie_name() + "="@
        + refresh);
}

} // verus!
