//! The tokens handed to users who signed in: HS256 JSON web tokens whose
//! claims are the credentials' id, email and name, and an expiration.
use vstd::prelude::*;
use vstd::string::*;
use crate::auth::error::Error;
use crate::auth::model::Credentials;

verus! {

/// The token that `jsonwebtoken` signs for these claims with `secret`, or
/// `None` where it signs none.
pub uninterp spec fn hs256_token(
    id: Seq<char>,
    email: Seq<char>,
    name: Seq<char>,
    exp: usize,
    secret: Seq<char>,
) -> Option<Seq<char>>;

/// Signs the claims `{id, email, name, exp}`, in that order (the map keeps
/// the order of insertion), with `jsonwebtoken::encode`, the default (HS256)
/// header and `EncodingKey::from_secret`. Claimed: a token comes back (an
/// HMAC key fits HS256, and a map of text and numbers always serialises),
/// and it is determined by the five values.
#[verifier::external_body]
fn encode_claims(id: &str, email: &str, name: &str, exp: usize, secret: &str) -> (token: Option<String>)
    ensures
        token is Some,
        hs256_token(id@, email@, name@, exp, secret@) == (match token {
            Some(t) => Some(t@),
            None => None,
        }),
{
    let mut claims = serde_json::Map::new();
    claims.insert(String::from("id"), serde_json::Value::from(id));
    claims.insert(String::from("email"), serde_json::Value::from(email));
    claims.insert(String::from("name"), serde_json::Value::from(name));
    claims.insert(String::from("exp"), serde_json::Value::from(exp));
    let key = jsonwebtoken::EncodingKey::from_secret(secret.as_bytes());
    jsonwebtoken::encode(&jsonwebtoken::Header::default(), &claims, &key).ok()
}

/// The message of a token that could not be made.
pub const TOKEN_FAILURE: &'static str = "Failed to generate JWT";

/// The token for `credentials`, expiring at `expiration`, signed with
/// `secret`.
pub fn generate_token(credentials: &Credentials, secret: &str, expiration: usize) -> (token: Result<
    String,
    Error,
>)
    ensures
        token is Ok,
        match hs256_token(credentials.id@, credentials.email@, credentials.name@, expiration, secret@) {
            Some(t) => token matches Ok(given) && given@ == t,
            None => token matches Err(Error::InternalServerError(message)) && message@
                == TOKEN_FAILURE@,
        },
{
    match encode_claims(
        credentials.id.as_str(),
        credentials.email.as_str(),
        credentials.name.as_str(),
        expiration,
        secret,
    ) {
        Some(token) => Ok(token),
        None => Err(Error::InternalServerError(String::from_str(TOKEN_FAILURE))),
    }
}

} // verus!
