//! Argon2 password hashing and checking.

use vstd::prelude::*;
use vstd::string::StringSliceAdditionalSpecFns;
use argon2::password_hash::rand_core::OsRng;
use argon2::password_hash::{PasswordHash, PasswordHasher, PasswordVerifier, Salt, SaltString};
use argon2::Argon2;

verus! {

#[verifier::external_type_specification]
#[verifier::external_body]
pub struct ExPasswordHashError(argon2::password_hash::Error);

/// The PHC string that Argon2 with its default parameters makes of a password
/// and a B64 salt.
pub uninterp spec fn argon2_phc(password: Seq<char>, salt: Seq<char>) -> Seq<char>;

/// Whether a text parses as a PHC password hash string.
pub uninterp spec fn phc_parses(phc: Seq<char>) -> bool;

/// Whether Argon2 accepts a password against a parsed PHC hash string.
pub uninterp spec fn argon2_accepts(password: Seq<char>, phc: Seq<char>) -> bool;

/// A stored hash that the password passes.
pub open spec fn password_matches(password: Seq<char>, phc: Seq<char>) -> bool {
    phc_parses(phc) && argon2_accepts(password, phc)
}

/// The value of a character in the standard Base64 alphabet, or -1 for a
/// character outside it.
pub open spec fn b64_value(c: char) -> int {
    if 'A' <= c <= 'Z' {
        c as int - 'A' as int
    } else if 'a' <= c <= 'z' {
        c as int - 'a' as int + 26
    } else if '0' <= c <= '9' {
        c as int - '0' as int + 52
    } else if c == '+' {
        62
    } else if c == '/' {
        63
    } else {
        -1
    }
}

/// The unpadded standard Base64 text of 16 bytes: 22 characters of the
/// alphabet, the last of which carries only the final 2 bits.
pub open spec fn is_b64_of_16_bytes(s: Seq<char>) -> bool {
    &&& s.len() == 22
    &&& forall|i: int| 0 <= i < s.len() ==> b64_value(#[trigger] s[i]) >= 0
    &&& b64_value(s[21]) % 16 == 0
}

/// `SaltString::generate(&mut OsRng)`: a fresh random salt, as B64 text. The
/// contract claims what the source shows of every salt it makes: 16 random
/// bytes written in unpadded standard Base64; which bytes is not stated.
#[verifier::external_body]
fn random_salt() -> (r: String)
    ensures
        is_b64_of_16_bytes(r@),
{
    SaltString::generate(&mut OsRng).as_str().to_owned()
}

/// `Argon2::default().hash_password` of the bytes of `password` with the salt
/// given as B64 text (`Salt::from_b64`), written as a PHC string. The contract
/// claims that the hash is a function of password and salt, and that the hash
/// parses again and accepts the same password, as the crate documents for a
/// hash that it made. It also claims what the source shows of when hashing
/// succeeds: a salt of 16 bytes in B64 text passes `Salt::from_b64` and the
/// salt length checks, the default parameters fix a valid output length, and
/// the remaining check is that the password has at most `0xFFFFFFFF` bytes.
/// When the call fails otherwise is not stated.
#[verifier::external_body]
fn argon2_hash(password: &str, salt: &str) -> (r: Result<String, argon2::password_hash::Error>)
    ensures
        is_b64_of_16_bytes(salt@) && password.spec_bytes().len() <= 0xFFFF_FFFF ==> r is Ok,
        r matches Ok(h) ==> h@ == argon2_phc(password@, salt@) && phc_parses(h@) && argon2_accepts(
            password@,
            h@,
        ),
{
    let salt = Salt::from_b64(salt)?;
    Ok(Argon2::default().hash_password(password.as_bytes(), salt)?.to_string())
}

/// `PasswordHash::new(phc)` and then `Argon2::default().verify_password` of
/// the bytes of `password` against it, `is_ok()`. The contract claims that the
/// parse fails exactly where `phc` is no PHC string, and names the answer.
#[verifier::external_body]
pub(crate) fn argon2_check(password: &str, phc: &str) -> (r: Result<bool, argon2::password_hash::Error>)
    ensures
        (r is Ok) == phc_parses(phc@),
        r matches Ok(b) ==> b == argon2_accepts(password@, phc@),
{
    let parsed = PasswordHash::new(phc)?;
    Ok(Argon2::default().verify_password(password.as_bytes(), &parsed).is_ok())
}

/// A salted Argon2 hash of `password` with a fresh random salt; `None` only
/// for a password longer than Argon2 takes (`0xFFFFFFFF` bytes). A hash that
/// comes back accepts the password.
pub fn hash_password(password: &str) -> (r: Option<String>)
    ensures
        password.spec_bytes().len() <= 0xFFFF_FFFF ==> r is Some,
        r matches Some(h) ==> (exists|salt: Seq<char>| h@ == #[trigger] argon2_phc(password@, salt))
            && password_matches(password@, h@),
{
    let salt = random_salt();
    match argon2_hash(password, salt.as_str()) {
        Ok(h) => Some(h),
        Err(_) => None,
    }
}

} // verus!
