//! Issuing signed access and refresh tokens.

use vstd::prelude::*;
use std::time::{Duration, SystemTime, SystemTimeError};
use crate::models::Claims;
use crate::text::{decimal, hex_char, push_decimal};

verus! {

/// Lifetime of an access token, in seconds (15 minutes).
pub const ACCESS_TTL: u64 = 15 * 60;

/// Lifetime of a refresh token, in seconds (7 days).
pub const REFRESH_TTL: u64 = 7 * 24 * 3600;

/// Why a token could not be made or checked.
#[derive(Debug, Clone, Copy, PartialEq, Eq, Structural)]
pub enum JwtError {
    TimeError,
    EncodingError,
    DecodingError,
}

#[verifier::external_type_specification]
#[verifier::external_body]
pub struct ExSystemTime(SystemTime);

#[verifier::external_type_specification]
#[verifier::external_body]
pub struct ExSystemTimeError(SystemTimeError);

#[verifier::external_type_specification]
#[verifier::external_body]
pub struct ExJwtLibError(jsonwebtoken::errors::Error);

/// `SystemTime::now`: the current reading of the system clock. Nothing is
/// claimed of it.
#[verifier::external_body]
fn system_time_now() -> SystemTime {
    SystemTime::now()
}

/// `SystemTime::duration_since(UNIX_EPOCH)`: the time elapsed since the Unix
/// epoch, or an error where the clock reads earlier. Nothing is claimed of it.
#[verifier::external_body]
fn since_unix_epoch(t: &SystemTime) -> Result<Duration, SystemTimeError> {
    t.duration_since(std::time::UNIX_EPOCH)
}

/// `Duration::as_secs`: the whole seconds of a duration. Nothing is claimed
/// of it, as the duration is opaque here.
#[verifier::external_body]
fn whole_seconds(d: &Duration) -> u64 {
    d.as_secs()
}

/// The current Unix time in whole seconds; `TimeError` where the clock reads
/// before the epoch.
pub fn now_secs() -> (r: Result<u64, JwtError>)
    ensures
        r matches Err(e) ==> e == JwtError::TimeError,
{
    let now = system_time_now();
    match since_unix_epoch(&now) {
        Ok(d) => Ok(whole_seconds(&d)),
        Err(_) => Err(JwtError::TimeError),
    }
}

/// How `serde_json` writes one character inside a JSON string: `"` and `\`
/// escaped by a backslash, the control characters below U+0020 as `\b`, `\t`,
/// `\n`, `\f`, `\r` or `\u00xx` with lower-case hex digits, every other
/// character as it is.
pub open spec fn json_escape_char(c: char) -> Seq<char> {
    let u = c as u32;
    if c == '"' {
        seq!['\\', '"']
    } else if c == '\\' {
        seq!['\\', '\\']
    } else if u == 8 {
        seq!['\\', 'b']
    } else if u == 9 {
        seq!['\\', 't']
    } else if u == 10 {
        seq!['\\', 'n']
    } else if u == 12 {
        seq!['\\', 'f']
    } else if u == 13 {
        seq!['\\', 'r']
    } else if u < 32 {
        seq!['\\', 'u', '0', '0', hex_char(u as nat / 16), hex_char(u as nat % 16)]
    } else {
        seq![c]
    }
}

/// The characters of `s`, each escaped as inside a JSON string.
pub open spec fn json_escaped(s: Seq<char>) -> Seq<char>
    decreases s.len(),
{
    if s.len() == 0 {
        Seq::empty()
    } else {
        json_escaped(s.drop_last()) + json_escape_char(s.last())
    }
}

/// `s` as a JSON string literal.
pub open spec fn json_string(s: Seq<char>) -> Seq<char> {
    seq!['"'] + json_escaped(s) + seq!['"']
}

/// The compact JSON object that `serde_json` writes for a `Claims` record:
/// its fields `sub`, `exp`, `token_type` in that order.
pub open spec fn claims_json(sub: Seq<char>, exp: nat, token_type: Seq<char>) -> Seq<char> {
    "{\"sub\":"@ + json_string(sub) + ",\"exp\":"@ + decimal(exp) + ",\"token_type\":"@
        + json_string(token_type) + "}"@
}

#[verifier::external_type_specification]
#[verifier::external_body]
pub struct ExSerdeJsonError(serde_json::Error);

/// `serde_json::to_string` of a text: the JSON string literal of `v`. The
/// contract claims what the source shows: writing a string into memory does
/// not fail, and the literal is `v` between quotes with each character escaped
/// as `json_escape_char` says (`ser.rs`, `format_escaped_str_contents`, the
/// `ESCAPE` table and `write_char_escape`).
#[verifier::external_body]
fn json_string_text(v: &str) -> (r: Result<String, serde_json::Error>)
    ensures
        r is Ok,
        r matches Ok(t) ==> t@ == json_string(v@),
{
    serde_json::to_string(v)
}

/// Appends `v` as a JSON string literal.
fn push_json_string(s: &mut String, v: &str)
    ensures
        final(s)@ == old(s)@ + json_string(v@),
{
    match json_string_text(v) {
        Ok(t) => s.append(t.as_str()),
        Err(_) => {},
    }
}

/// The JSON text of `claims`, as `serde_json` writes that record.
pub fn claims_payload(claims: &Claims) -> (r: String)
    ensures
        r@ == claims_json(claims.sub@, claims.exp as nat, claims.token_type@),
{
    let mut r = String::new();
    r.append("{\"sub\":");
    push_json_string(&mut r, claims.sub.as_str());
    r.append(",\"exp\":");
    push_decimal(&mut r, claims.exp as u64);
    r.append(",\"token_type\":");
    push_json_string(&mut r, claims.token_type.as_str());
    r.append("}");
    r
}

/// A character of the URL-safe Base64 alphabet, or the `.` that separates the
/// parts of a token.
pub open spec fn is_token_char(c: char) -> bool {
    ||| 'A' <= c <= 'Z'
    ||| 'a' <= c <= 'z'
    ||| '0' <= c <= '9'
    ||| c == '-'
    ||| c == '_'
    ||| c == '.'
}

/// A text made of token characters only.
pub open spec fn is_token_text(t: Seq<char>) -> bool {
    forall|i: int| 0 <= i < t.len() ==> is_token_char(#[trigger] t[i])
}

/// No claims text other than `payload` signs to the token `t` under `secret`.
pub open spec fn token_determines_claims(t: Seq<char>, secret: Seq<char>, payload: Seq<char>) -> bool {
    forall|sub: Seq<char>, exp: nat, token_type: Seq<char>|
        #[trigger] hs256_token(claims_json(sub, exp, token_type), secret) == t ==> claims_json(
            sub,
            exp,
            token_type,
        ) == payload
}

/// The token that `jsonwebtoken` makes of a JSON payload text and a secret.
pub uninterp spec fn hs256_token(payload: Seq<char>, secret: Seq<char>) -> Seq<char>;

/// `jsonwebtoken::encode` with the default header (HS256, type JWT) and the
/// HMAC key made of the bytes of `secret`, of the JSON text `payload` taken as
/// it is (`serde_json::value::RawValue::from_string`). The contract claims
/// that a token, where one comes back, is a function of the payload and the
/// secret, and that it is made of URL-safe Base64 parts joined by `.`, as the
/// encoder writes every token. It also claims success for the JSON text of a
/// claims record: that text is valid JSON, so `RawValue::from_string` takes
/// it, and with the default HS256 header and an HMAC key `encode` fails only
/// where serialising or signing fails, which neither does for such input.
/// When the call fails for other payloads is not stated. Last, it claims that
/// the token of a claims text determines that text: the token's middle part is
/// the URL-safe Base64 of the payload's bytes, which `RawValue` keeps as they
/// are for a text that begins with `{` and ends with `}`, and Base64 and UTF-8
/// are one-to-one; so no other claims text signs to the same token.
#[verifier::external_body]
fn encode_hs256(payload: String, secret: &str) -> (r: Result<String, jsonwebtoken::errors::Error>)
    ensures
        r matches Ok(t) ==> t@ == hs256_token(payload@, secret@) && is_token_text(t@),
        (exists|sub: Seq<char>, exp: nat, token_type: Seq<char>|
            payload@ == #[trigger] claims_json(sub, exp, token_type)) ==> r is Ok,
        r matches Ok(t) ==> ((exists|sub: Seq<char>, exp: nat, token_type: Seq<char>|
            payload@ == #[trigger] claims_json(sub, exp, token_type)) ==> token_determines_claims(
            t@,
            secret@,
            payload@,
        )),
{
    let raw = serde_json::value::RawValue::from_string(payload)?;
    jsonwebtoken::encode(
        &jsonwebtoken::Header::default(),
        &raw,
        &jsonwebtoken::EncodingKey::from_secret(secret.as_bytes()),
    )
}

/// The token that carries `claims`, signed with `secret`.
pub open spec fn signed_claims(sub: Seq<char>, exp: nat, token_type: Seq<char>, secret: Seq<char>) -> Seq<char> {
    hs256_token(claims_json(sub, exp, token_type), secret)
}

/// Signs `claims` with `secret`. Signing a claims record does not fail.
pub fn encode_claims(claims: &Claims, secret: &str) -> (r: Result<String, JwtError>)
    ensures
        r matches Ok(t) && t@ == signed_claims(claims.sub@, claims.exp as nat, claims.token_type@, secret@)
            && is_token_text(t@) && token_determines_claims(
            t@,
            secret@,
            claims_json(claims.sub@, claims.exp as nat, claims.token_type@),
        ),
{
    let payload = claims_payload(claims);
    assert(payload@ == claims_json(claims.sub@, claims.exp as nat, claims.token_type@));
    match encode_hs256(payload, secret) {
        Ok(t) => Ok(t),
        Err(_) => Err(JwtError::EncodingError),
    }
}

/// The expiry of a token issued at Unix time `now` with lifetime `ttl`.
pub open spec fn expiry(now: u64, ttl: u64) -> nat {
    ((now + ttl) as usize) as nat
}

/// `t` is a token for `sub` of kind `token_type`, signed with `secret`, that
/// expires `ttl` seconds after some clock reading at which it was made.
pub open spec fn issued_token(t: Seq<char>, sub: Seq<char>, ttl: u64, token_type: Seq<char>, secret: Seq<char>) -> bool {
    &&& exists|now: u64|
        now + ttl <= u64::MAX && t == #[trigger] signed_claims(sub, expiry(now, ttl), token_type, secret)
    &&& is_token_text(t)
}

/// The claims of a token for `username` of kind `token_type`, made at Unix
/// time `now` with lifetime `ttl`; `None` where the expiry does not fit in 64
/// bits.
pub fn token_claims(username: &str, ttl: u64, token_type: &str, now: u64) -> (r: Option<Claims>)
    ensures
        now + ttl > u64::MAX ==> r is None,
        now + ttl <= u64::MAX ==> (r matches Some(c) && c.sub@ == username@ && c.exp as nat
            == expiry(now, ttl) && c.token_type@ == token_type@),
{
    match now.checked_add(ttl) {
        Some(sum) => Some(
            Claims { sub: username.to_owned(), exp: sum as usize, token_type: token_type.to_owned() },
        ),
        None => None,
    }
}

/// The token for `username` of kind `token_type`, signed with `secret`, made
/// at Unix time `now` with lifetime `ttl`: a `TimeError` where the expiry does
/// not fit in 64 bits, and otherwise exactly the signed claims.
pub fn make_jwt_at(username: &str, ttl: u64, token_type: &str, secret: &str, now: u64) -> (r: Result<String, JwtError>)
    ensures
        now + ttl > u64::MAX ==> r == Err::<String, JwtError>(JwtError::TimeError),
        now + ttl <= u64::MAX ==> (r matches Ok(t) && t@ == signed_claims(
            username@,
            expiry(now, ttl),
            token_type@,
            secret@,
        ) && is_token_text(t@) && token_determines_claims(
            t@,
            secret@,
            claims_json(username@, expiry(now, ttl), token_type@),
        )),
{
    let claims = match token_claims(username, ttl, token_type, now) {
        Some(c) => c,
        None => return Err(JwtError::TimeError),
    };
    encode_claims(&claims, secret)
}

/// A token for `username` of kind `token_type` that expires `ttl` seconds
/// after the current time. The clock is read once; a clock before the Unix
/// epoch, or a reading so late that the expiry does not fit in 64 bits, is a
/// `TimeError`; at a given reading the token is what `make_jwt_at` makes.
pub fn make_jwt(username: &str, ttl: u64, token_type: &str, secret: &str) -> (r: Result<String, JwtError>)
    ensures
        r matches Ok(t) ==> issued_token(t@, username@, ttl, token_type@, secret@),
        r matches Err(e) ==> e == JwtError::TimeError,
{
    let now = now_secs()?;
    let r = make_jwt_at(username, ttl, token_type, secret, now);
    proof {
        if r is Ok {
            assert(signed_claims(username@, expiry(now, ttl), token_type@, secret@) == r->Ok_0@);
        }
    }
    r
}

/// An access token for `username`, valid for `ACCESS_TTL` seconds.
pub fn make_access_token(username: &str, secret: &str) -> (r: Result<String, JwtError>)
    ensures
        r matches Ok(t) ==> issued_token(t@, username@, ACCESS_TTL, "access"@, secret@),
        r matches Err(e) ==> e == JwtError::TimeError,
{
    make_jwt(username, ACCESS_TTL, "access", secret)
}

/// A refresh token for `username`, valid for `REFRESH_TTL` seconds.
pub fn make_refresh_token(username: &str, secret: &str) -> (r: Result<String, JwtError>)
    ensures
        r matches Ok(t) ==> issued_token(t@, username@, REFRESH_TTL, "refresh"@, secret@),
        r matches Err(e) ==> e == JwtError::TimeError,
{
    make_jwt(username, REFRESH_TTL, "refresh", secret)
}


/// The claims text of an access token is never that of a refresh token: the
/// two end in different kinds.
pub proof fn lemma_claims_kinds_differ(s1: Seq<char>, e1: nat, s2: Seq<char>, e2: nat)
    ensures
        claims_json(s1, e1, "access"@) != claims_json(s2, e2, "refresh"@),
{
    reveal_strlit("access");
    reveal_strlit("refresh");
    reveal_strlit("}");
    let ea = json_escaped("access"@);
    let er = json_escaped("refresh"@);
    assert(ea == json_escaped("access"@.drop_last()) + json_escape_char('s'));
    assert(er == json_escaped("refresh"@.drop_last()) + json_escape_char('h'));
    assert(json_escape_char('s') == seq!['s']);
    assert(json_escape_char('h') == seq!['h']);
    let a = claims_json(s1, e1, "access"@);
    let b = claims_json(s2, e2, "refresh"@);
    assert(a[a.len() - 3] == 's');
    assert(b[b.len() - 3] == 'h');
}

} // verus!
