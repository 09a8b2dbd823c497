//! The request, response and token-claim records of the service.

use vstd::prelude::*;

verus! {

/// Credentials sent to register or log in.
pub struct AuthRequest {
    pub username: String,
    pub password: String,
}

/// The message body of a successful authentication response.
pub struct AuthResponse {
    pub message: String,
}

/// The claims carried by an access or a refresh token.
#[derive(Clone)]
pub struct Claims {
    pub sub: String,
    pub exp: usize,
    pub token_type: String,
}

/// Credentials are well-formed: a user name of 3 to 10 characters and a
/// password of at least 8 characters.
pub open spec fn valid_credentials(username: Seq<char>, password: Seq<char>) -> bool {
    &&& 3 <= username.len() <= 10
    &&& 8 <= password.len()
}

/// `validator::ValidateLength::validate_length` on a text, with no exact
/// length asked: whether its number of characters is at least `min` and at
/// most `max`, each where given.
#[verifier::external_body]
fn length_within(value: &str, min: Option<u64>, max: Option<u64>) -> (r: bool)
    ensures
        r == ((min matches Some(lo) ==> lo <= value@.len()) && (max matches Some(hi) ==> value@.len()
            <= hi)),
{
    validator::ValidateLength::<u64>::validate_length(value, min, max, None)
}

impl AuthRequest {
    /// Whether the user name has 3 to 10 characters and the password at
    /// least 8.
    pub fn is_valid(&self) -> (r: bool)
        ensures
            r == valid_credentials(self.username@, self.password@),
            r == (3 <= self.username@.len() && self.username@.len() <= 10 && 8 <= self.password@.len()),
    {
        length_within(self.username.as_str(), Some(3), Some(10)) && length_within(
            self.password.as_str(),
            Some(8),
            None,
        )
    }
}


/// The credential check asks exactly what the request's validation
/// attributes say: a user name of 3 to 10 characters, and a password of at
/// least 8 characters with no upper bound.
pub proof fn lemma_credential_bounds(username: Seq<char>, password: Seq<char>)
    ensures
        valid_credentials(username, password) <==> (3 <= username.len() && username.len() <= 10 && 8
            <= password.len()),
{
}

/// Lengthening a valid password keeps the credentials valid.
pub proof fn lemma_longer_password_stays_valid(username: Seq<char>, password: Seq<char>, suffix: Seq<char>)
    requires
        valid_credentials(username, password),
    ensures
        valid_credentials(username, password + suffix),
{
}

} // verus!
