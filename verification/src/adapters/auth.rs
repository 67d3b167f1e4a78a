//! Password hashing and signed tokens, by way of the `argon2` and
//! `jsonwebtoken` crates.

use vstd::prelude::*;

verus! {

/// The Argon2id hash, in PHC string form, of a password under a salt given
/// in B64, with the default parameters; nothing if the salt is not
/// acceptable or hashing fails.
pub uninterp spec fn argon2_phc(password: Seq<u8>, salt: Seq<char>) -> Option<Seq<char>>;

/// Whether a password matches a hash in PHC string form; nothing if the text
/// is no such hash.
pub uninterp spec fn password_check(password: Seq<u8>, hash: Seq<char>) -> Option<bool>;

/// The token that signs the given claims with HMAC-SHA-256 under a secret;
/// nothing if encoding fails.
pub uninterp spec fn jwt_hs256(
    secret: Seq<u8>,
    sub: Seq<char>,
    email: Seq<char>,
    role: Seq<char>,
    exp: i64,
    iat: i64,
    jti: Seq<char>,
) -> Option<Seq<char>>;

/// A fresh random salt in B64.
///
/// Wraps `SaltString::generate` with the system's random number generator.
/// Nothing is claimed of the value.
#[verifier::external_body]
pub(crate) fn fresh_salt() -> String {
    let salt = argon2::password_hash::SaltString::generate(
        &mut argon2::password_hash::rand_core::OsRng,
    );
    salt.as_str().to_string()
}

/// Hashes a password under a salt.
///
/// Wraps `PasswordHasher::hash_password` of `argon2::Argon2::default()`. The
/// crate's documentation shows that a hash made this way verifies the
/// password it was made from.
#[verifier::external_body]
pub(crate) fn argon2_hash(password: &[u8], salt: &str) -> (hash: Option<String>)
    ensures
        match hash {
            Some(h) => argon2_phc(password@, salt@) == Some(h@) && password_check(password@, h@)
                == Some(true),
            None => argon2_phc(password@, salt@) is None,
        },
{
    let salt = match argon2::password_hash::SaltString::from_b64(salt) {
        Ok(salt) => salt,
        Err(_) => return None,
    };
    match argon2::PasswordHasher::hash_password(&argon2::Argon2::default(), password, &salt) {
        Ok(hash) => Some(hash.to_string()),
        Err(_) => None,
    }
}

/// Checks a password against a hash.
///
/// Wraps `PasswordHash::new`, which parses a PHC string, and
/// `PasswordVerifier::verify_password` of `argon2::Argon2::default()`, which
/// hashes the password with the parameters of the hash and compares.
#[verifier::external_body]
pub(crate) fn argon2_verify(password: &[u8], hash: &str) -> (matches: Option<bool>)
    ensures
        matches == password_check(password@, hash@),
{
    match argon2::PasswordHash::new(hash) {
        Ok(parsed) => Some(
            argon2::PasswordVerifier::verify_password(
                &argon2::Argon2::default(),
                password,
                &parsed,
            ).is_ok(),
        ),
        Err(_) => None,
    }
}

/// Signs claims into a token.
///
/// Wraps `jsonwebtoken::encode` with the default header, which signs with
/// HMAC-SHA-256, over a JSON object that holds the six claims.
#[verifier::external_body]
pub(crate) fn sign_claims(
    secret: &[u8],
    sub: &str,
    email: &str,
    role: &str,
    exp: i64,
    iat: i64,
    jti: &str,
) -> (token: Option<String>)
    ensures
        match token {
            Some(t) => jwt_hs256(secret@, sub@, email@, role@, exp, iat, jti@) == Some(t@),
            None => jwt_hs256(secret@, sub@, email@, role@, exp, iat, jti@) is None,
        },
{
    let mut claims = serde_json::Map::new();
    claims.insert("sub".to_string(), sub.into());
    claims.insert("email".to_string(), email.into());
    claims.insert("role".to_string(), role.into());
    claims.insert("exp".to_string(), exp.into());
    claims.insert("iat".to_string(), iat.into());
    claims.insert("jti".to_string(), jti.into());
    let key = jsonwebtoken::EncodingKey::from_secret(secret);
    jsonwebtoken::encode(&jsonwebtoken::Header::default(), &claims, &key).ok()
}

/// Checks a token and hands out its claims.
///
/// Wraps `jsonwebtoken::decode` with the default validation: the signature
/// must be an HMAC-SHA-256 under the secret, and the token must not have
/// expired, give or take a minute. The outcome depends on the time of the
/// call, so nothing is claimed of it.
#[verifier::external_body]
pub(crate) fn verify_token(secret: &[u8], token: &str) -> Option<serde_json::Value> {
    let key = jsonwebtoken::DecodingKey::from_secret(secret);
    let rules = jsonwebtoken::Validation::default();
    match jsonwebtoken::decode::<serde_json::Value>(token, &key, &rules) {
        Ok(data) => Some(data.claims),
        Err(_) => None,
    }
}

} // verus!
