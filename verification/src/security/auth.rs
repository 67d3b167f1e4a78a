//! Who a caller is: roles, token claims, passwords.

use vstd::prelude::*;
use vstd::string::StringSliceAdditionalSpecFns;
use vstd::utf8::encode_utf8;
use crate::adapters::auth::{
    argon2_hash, argon2_phc, argon2_verify, fresh_salt, jwt_hs256, password_check, sign_claims,
    verify_token,
};
use crate::adapters::clock::{now, Timestamp};
use crate::adapters::ids::{hyphenated, id_text, random_id};
use crate::adapters::json::{json_integers, json_texts, member_integer, member_text};
use crate::engine::text::same_text;

verus! {

/// What a user may do.
#[derive(Debug, Clone, Copy, PartialEq, Eq, Structural)]
pub enum UserRole {
    Admin,
    User,
    ReadOnly,
}

impl UserRole {
    /// The role's name in a token: the variant's name in lower case.
    pub fn as_str(&self) -> (name: &'static str)
        ensures
            name@ == match *self {
                UserRole::Admin => "admin"@,
                UserRole::User => "user"@,
                UserRole::ReadOnly => "readonly"@,
            },
    {
        match self {
            UserRole::Admin => "admin",
            UserRole::User => "user",
            UserRole::ReadOnly => "readonly",
        }
    }
}

/// What a token says about its bearer.
#[derive(Debug, Clone)]
pub struct Claims {
    /// The user's identifier.
    pub sub: String,
    pub email: String,
    pub role: UserRole,
    /// When the token expires, in seconds since the Unix epoch.
    pub exp: i64,
    /// When the token was issued, in seconds since the Unix epoch.
    pub iat: i64,
    /// The token's own identifier.
    pub jti: String,
}

/// Why the authentication service failed.
#[derive(Debug, Clone, Copy, PartialEq, Eq, Structural)]
pub enum AuthError {
    /// The password could not be hashed.
    HashFailed,
    /// The text is no password hash.
    InvalidHashFormat,
    /// The time of expiry cannot be represented.
    ExpiryOutOfRange,
    /// The token could not be made.
    TokenFailed,
    /// The token is not genuine, has expired, or lacks a claim.
    InvalidToken,
}

impl AuthError {
    /// A sentence that says what failed.
    pub fn message(&self) -> (text: &'static str)
        ensures
            text@ == match *self {
                AuthError::HashFailed => "Failed to hash password"@,
                AuthError::InvalidHashFormat => "Invalid hash format"@,
                AuthError::ExpiryOutOfRange => "Token expiry out of range"@,
                AuthError::TokenFailed => "Failed to generate JWT token"@,
                AuthError::InvalidToken => "Invalid or expired token"@,
            },
    {
        match self {
            AuthError::HashFailed => "Failed to hash password",
            AuthError::InvalidHashFormat => "Invalid hash format",
            AuthError::ExpiryOutOfRange => "Token expiry out of range",
            AuthError::TokenFailed => "Failed to generate JWT token",
            AuthError::InvalidToken => "Invalid or expired token",
        }
    }
}

/// The role that a name in a token stands for.
pub open spec fn role_named(name: Seq<char>) -> Option<UserRole> {
    if name == "admin"@ {
        Some(UserRole::Admin)
    } else if name == "user"@ {
        Some(UserRole::User)
    } else if name == "readonly"@ {
        Some(UserRole::ReadOnly)
    } else {
        None
    }
}

/// The name of a role in a token.
pub open spec fn role_name(role: UserRole) -> Seq<char> {
    match role {
        UserRole::Admin => "admin"@,
        UserRole::User => "user"@,
        UserRole::ReadOnly => "readonly"@,
    }
}

/// Every role is known by its name.
pub proof fn lemma_role_name_round_trip(role: UserRole)
    ensures
        role_named(role_name(role)) == Some(role),
{
    reveal_strlit("admin");
    reveal_strlit("user");
    reveal_strlit("readonly");
    assert("admin"@.len() != "user"@.len());
}

impl UserRole {
    /// The role that a name in a token stands for.
    pub fn parse(name: &str) -> (role: Option<UserRole>)
        ensures
            role == role_named(name@),
    {
        if same_text(name, "admin") {
            Some(UserRole::Admin)
        } else if same_text(name, "user") {
            Some(UserRole::User)
        } else if same_text(name, "readonly") {
            Some(UserRole::ReadOnly)
        } else {
            None
        }
    }
}

/// The claims that a JSON object states, if it states all six: the texts
/// `sub`, `email` and `jti`, a known role under `role`, and the integers
/// `exp` and `iat`.
pub open spec fn stated_claims(
    texts: Map<Seq<char>, Seq<char>>,
    integers: Map<Seq<char>, i64>,
) -> bool {
    &&& texts.contains_key("sub"@)
    &&& texts.contains_key("email"@)
    &&& texts.contains_key("role"@)
    &&& role_named(texts["role"@]) is Some
    &&& integers.contains_key("exp"@)
    &&& integers.contains_key("iat"@)
    &&& texts.contains_key("jti"@)
}

impl Claims {
    /// Whether these are the claims that the object states.
    pub open spec fn states(
        self,
        texts: Map<Seq<char>, Seq<char>>,
        integers: Map<Seq<char>, i64>,
    ) -> bool {
        &&& self.sub@ == texts["sub"@]
        &&& self.email@ == texts["email"@]
        &&& Some(self.role) == role_named(texts["role"@])
        &&& self.exp == integers["exp"@]
        &&& self.iat == integers["iat"@]
        &&& self.jti@ == texts["jti"@]
    }

    /// Whether these are the claims that `value` states, all six of them.
    pub open spec fn read_from(self, value: serde_json::Value) -> bool {
        &&& stated_claims(json_texts(value), json_integers(value))
        &&& self.states(json_texts(value), json_integers(value))
    }

    /// Reads claims off the JSON object of a token.
    pub fn from_json(value: &serde_json::Value) -> (outcome: Result<Claims, AuthError>)
        ensures
            stated_claims(json_texts(*value), json_integers(*value)) <==> outcome is Ok,
            match outcome {
                Ok(claims) => claims.states(json_texts(*value), json_integers(*value)),
                Err(e) => e == AuthError::InvalidToken,
            },
    {
        let sub = match member_text(value, "sub") {
            Some(sub) => sub,
            None => { return Err(AuthError::InvalidToken); },
        };
        let email = match member_text(value, "email") {
            Some(email) => email,
            None => { return Err(AuthError::InvalidToken); },
        };
        let role = match member_text(value, "role") {
            Some(name) => match UserRole::parse(name.as_str()) {
                Some(role) => role,
                None => { return Err(AuthError::InvalidToken); },
            },
            None => { return Err(AuthError::InvalidToken); },
        };
        let exp = match member_integer(value, "exp") {
            Some(exp) => exp,
            None => { return Err(AuthError::InvalidToken); },
        };
        let iat = match member_integer(value, "iat") {
            Some(iat) => iat,
            None => { return Err(AuthError::InvalidToken); },
        };
        let jti = match member_text(value, "jti") {
            Some(jti) => jti,
            None => { return Err(AuthError::InvalidToken); },
        };
        Ok(Claims { sub, email, role, exp, iat, jti })
    }
}

/// The number of seconds in an hour.
pub const SECONDS_PER_HOUR: i64 = 3600;

/// The signed number with the bits of `hours`.
pub open spec fn signed_hours(hours: u64) -> int {
    if hours <= i64::MAX {
        hours as int
    } else {
        hours - 0x1_0000_0000_0000_0000
    }
}

/// Hashes passwords and issues and checks tokens.
#[derive(Debug, Clone)]
pub struct AuthService {
    jwt_secret: String,
    jwt_expiry_hours: i64,
}

impl AuthService {
    /// The secret that signs the tokens.
    pub closed spec fn secret(self) -> Seq<u8> {
        encode_utf8(self.jwt_secret@)
    }

    /// For how many hours a token is good.
    pub closed spec fn expiry_hours(self) -> i64 {
        self.jwt_expiry_hours
    }

    /// When a token issued at `issued` expires, if both the time for which
    /// it is good, in seconds, and the time of expiry can be represented.
    pub open spec fn expiry(self, issued: i64) -> Option<i64> {
        let span = self.expiry_hours() * SECONDS_PER_HOUR;
        let at = issued + span;
        if i64::MIN <= span <= i64::MAX && i64::MIN <= at <= i64::MAX {
            Some(at as i64)
        } else {
            None
        }
    }

    /// Whether `outcome` is what issuing a token for the user gives at the
    /// time `issued`, in seconds since the Unix epoch, under the token
    /// identifier `jti`: a failure if the time of expiry cannot be
    /// represented; else the token that signs the claims, or a failure if
    /// there is none.
    pub open spec fn issued_as(
        self,
        user_id: Seq<char>,
        email: Seq<char>,
        role: UserRole,
        issued: i64,
        jti: Seq<char>,
        outcome: Result<String, AuthError>,
    ) -> bool {
        match self.expiry(issued) {
            Some(exp) => match jwt_hs256(
                self.secret(),
                user_id,
                email,
                role_name(role),
                exp,
                issued,
                jti,
            ) {
                Some(token) => outcome is Ok && outcome->Ok_0@ == token,
                None => outcome == Err::<String, AuthError>(AuthError::TokenFailed),
            },
            None => outcome == Err::<String, AuthError>(AuthError::ExpiryOutOfRange),
        }
    }

    /// A service that signs with `jwt_secret` and issues tokens that are
    /// good for `jwt_expiry_hours` hours.
    pub fn new(jwt_secret: String, jwt_expiry_hours: u64) -> (service: AuthService)
        ensures
            service.secret() == encode_utf8(jwt_secret@),
            service.expiry_hours() == signed_hours(jwt_expiry_hours),
    {
        let hours: i64 = if jwt_expiry_hours <= 0x7fff_ffff_ffff_ffff {
            jwt_expiry_hours as i64
        } else {
            (jwt_expiry_hours - 0x8000_0000_0000_0000) as i64 + i64::MIN
        };
        AuthService { jwt_secret, jwt_expiry_hours: hours }
    }

    /// A second handle on the same service.
    pub fn duplicate(&self) -> (service: AuthService)
        ensures
            service.secret() == self.secret(),
            service.expiry_hours() == self.expiry_hours(),
    {
        AuthService {
            jwt_secret: self.jwt_secret.clone(),
            jwt_expiry_hours: self.jwt_expiry_hours,
        }
    }

    /// Hashes `password` under the given salt.
    pub fn hash_password_with_salt(&self, password: &str, salt: &str) -> (outcome: Result<
        String,
        AuthError,
    >)
        ensures
            match outcome {
                Ok(hash) => argon2_phc(password.spec_bytes(), salt@) == Some(hash@)
                    && password_check(password.spec_bytes(), hash@) == Some(true),
                Err(e) => e == AuthError::HashFailed && argon2_phc(password.spec_bytes(), salt@)
                    is None,
            },
    {
        match argon2_hash(password.as_bytes(), salt) {
            Some(hash) => Ok(hash),
            None => Err(AuthError::HashFailed),
        }
    }

    /// Hashes `password` under a fresh random salt. The hash matches the
    /// password.
    pub fn hash_password(&self, password: &str) -> (outcome: Result<String, AuthError>)
        ensures
            match outcome {
                Ok(hash) => password_check(password.spec_bytes(), hash@) == Some(true),
                Err(e) => e == AuthError::HashFailed,
            },
    {
        let salt = fresh_salt();
        self.hash_password_with_salt(password, salt.as_str())
    }

    /// Whether `password` matches `hash`. A text that is no hash is refused.
    pub fn verify_password(&self, password: &str, hash: &str) -> (outcome: Result<bool, AuthError>)
        ensures
            outcome == match password_check(password.spec_bytes(), hash@) {
                Some(matches) => Ok::<bool, AuthError>(matches),
                None => Err::<bool, AuthError>(AuthError::InvalidHashFormat),
            },
    {
        match argon2_verify(password.as_bytes(), hash) {
            Some(matches) => Ok(matches),
            None => Err(AuthError::InvalidHashFormat),
        }
    }

    /// Issues a token for the user at the time `issued`, under the token
    /// identifier `jti`.
    pub fn issue_token(
        &self,
        user_id: &str,
        email: &str,
        role: UserRole,
        issued: Timestamp,
        jti: &str,
    ) -> (outcome: Result<String, AuthError>)
        ensures
            self.issued_as(user_id@, email@, role, issued.secs, jti@, outcome),
    {
        let span = match self.jwt_expiry_hours.checked_mul(3600) {
            Some(span) => span,
            None => { return Err(AuthError::ExpiryOutOfRange); },
        };
        let exp = match issued.secs.checked_add(span) {
            Some(exp) => exp,
            None => { return Err(AuthError::ExpiryOutOfRange); },
        };
        match sign_claims(
            self.jwt_secret.as_str().as_bytes(),
            user_id,
            email,
            role.as_str(),
            exp,
            issued.secs,
            jti,
        ) {
            Some(token) => Ok(token),
            None => Err(AuthError::TokenFailed),
        }
    }

    /// Issues a token for the user, as of now and under a fresh random token
    /// identifier: the outcome is that of `issue_token` at some time and
    /// under the hyphenated form of some identifier.
    pub fn generate_token(&self, user_id: &str, email: &str, role: UserRole) -> (outcome: Result<
        String,
        AuthError,
    >)
        ensures
            exists|issued: i64, id: u128| #[trigger]
                self.issued_as(user_id@, email@, role, issued, hyphenated(id), outcome),
            outcome matches Err(e) ==> e == AuthError::TokenFailed || e
                == AuthError::ExpiryOutOfRange,
    {
        let issued = now();
        let id = random_id();
        let jti = id_text(id);
        let outcome = self.issue_token(user_id, email, role, issued, jti.as_str());
        assert(self.issued_as(user_id@, email@, role, issued.secs, hyphenated(id), outcome));
        outcome
    }

    /// Checks a token and hands out its claims. The claims that are handed
    /// out are read off a JSON object that states all six of them; every
    /// failure is reported as an invalid token.
    pub fn validate_token(&self, token: &str) -> (outcome: Result<Claims, AuthError>)
        ensures
            outcome matches Ok(claims) ==> exists|value: serde_json::Value| #[trigger]
                claims.read_from(value),
            outcome matches Err(e) ==> e == AuthError::InvalidToken,
    {
        match verify_token(self.jwt_secret.as_str().as_bytes(), token) {
            Some(value) => {
                let outcome = Claims::from_json(&value);
                assert(outcome matches Ok(claims) ==> claims.read_from(value));
                outcome
            },
            None => Err(AuthError::InvalidToken),
        }
    }

    /// Issues a new token with the user, e-mail address and role of a valid
    /// one: unless the token is reported as invalid, the outcome is that of
    /// `issue_token` for the user, e-mail address and role of claims that a
    /// JSON object states, at some time and under the hyphenated form of
    /// some identifier.
    pub fn refresh_token(&self, token: &str) -> (outcome: Result<String, AuthError>)
        ensures
            outcome == Err::<String, AuthError>(AuthError::InvalidToken) || exists|
                claims: Claims,
                value: serde_json::Value,
                issued: i64,
                id: u128,
            |
                #![trigger
                    claims.read_from(value),
                    self.issued_as(
                        claims.sub@,
                        claims.email@,
                        claims.role,
                        issued,
                        hyphenated(id),
                        outcome,
                    ),
                ]
                claims.read_from(value) && self.issued_as(
                    claims.sub@,
                    claims.email@,
                    claims.role,
                    issued,
                    hyphenated(id),
                    outcome,
                ),
            outcome matches Err(e) ==> e == AuthError::InvalidToken || e == AuthError::TokenFailed
                || e == AuthError::ExpiryOutOfRange,
    {
        match self.validate_token(token) {
            Ok(claims) => {
                let outcome = self.generate_token(
                    claims.sub.as_str(),
                    claims.email.as_str(),
                    claims.role,
                );
                proof {
                    let value = choose|value: serde_json::Value| claims.read_from(value);
                    let (issued, id) = choose|issued: i64, id: u128| #[trigger]
                        self.issued_as(
                            claims.sub@,
                            claims.email@,
                            claims.role,
                            issued,
                            hyphenated(id),
                            outcome,
                        );
                    assert(claims.read_from(value) && self.issued_as(
                        claims.sub@,
                        claims.email@,
                        claims.role,
                        issued,
                        hyphenated(id),
                        outcome,
                    ));
                }
                outcome
            },
            Err(e) => Err(e),
        }
    }
}

} // verus!
