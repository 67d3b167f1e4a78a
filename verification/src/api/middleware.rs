//! What stands between a request and its handler.

use vstd::prelude::*;
use std::rc::Rc;
use crate::engine::text::{has_prefix, without_prefix};
use crate::security::auth::{AuthService, Claims};

verus! {

/// Whether `path` begins with one of the excluded paths.
pub open spec fn is_excluded(excluded: Seq<String>, path: Seq<char>) -> bool {
    exists|i: int| 0 <= i < excluded.len() && (#[trigger] excluded[i])@.is_prefix_of(path)
}

/// The token that an `Authorization` header carries: what follows the word
/// `Bearer` and one space.
pub open spec fn bearer_token(authorization: Option<Seq<char>>) -> Option<Seq<char>> {
    match authorization {
        Some(header) => if "Bearer "@.is_prefix_of(header) {
            Some(header.skip("Bearer "@.len() as int))
        } else {
            None
        },
        None => None,
    }
}

/// What the path and the header of a request call for.
#[derive(Debug, Clone)]
pub enum Gate {
    /// The path needs no authentication.
    Open,
    /// The token has to be checked.
    Check(String),
    /// A token is needed and none was sent.
    Missing,
}

/// What the path and the header of a request call for: nothing for an
/// excluded path, else a check of the bearer token, if there is one.
pub open spec fn gate_for(
    excluded: Seq<String>,
    path: Seq<char>,
    authorization: Option<Seq<char>>,
    gate: Gate,
) -> bool {
    if is_excluded(excluded, path) {
        gate is Open
    } else {
        match bearer_token(authorization) {
            Some(token) => gate matches Gate::Check(t) && t@ == token,
            None => gate is Missing,
        }
    }
}

/// Why a request was turned away.
#[derive(Debug, Clone, Copy, PartialEq, Eq, Structural)]
pub enum Refusal {
    MissingToken,
    InvalidToken,
}

impl Refusal {
    /// What the caller is told.
    pub fn message(&self) -> (text: &'static str)
        ensures
            text@ == match *self {
                Refusal::MissingToken => "Missing authorization token"@,
                Refusal::InvalidToken => "Invalid or expired token"@,
            },
    {
        match self {
            Refusal::MissingToken => "Missing authorization token",
            Refusal::InvalidToken => "Invalid or expired token",
        }
    }
}

/// What becomes of a request.
#[derive(Debug, Clone)]
pub enum AuthOutcome {
    /// The request goes on to the service as it is.
    Forward,
    /// The request goes on to the service and carries these claims.
    ForwardWith(Claims),
    /// The request is turned away.
    Unauthorized(Refusal),
}

/// Authentication by bearer token.
pub struct JwtAuth {
    auth_service: AuthService,
    /// The beginnings of the paths that need no authentication.
    excluded_paths: Vec<String>,
}

/// A copy of a list of strings.
fn copy_of(list: &Vec<String>) -> (copy: Vec<String>)
    ensures
        copy@.len() == list@.len(),
        forall|i: int| 0 <= i < list@.len() ==> (#[trigger] copy@[i])@ == list@[i]@,
{
    let mut copy: Vec<String> = Vec::new();
    let mut i: usize = 0;
    while i < list.len()
        invariant
            i <= list.len(),
            copy@.len() == i,
            forall|j: int| 0 <= j < i ==> (#[trigger] copy@[j])@ == list@[j]@,
        decreases list.len() - i,
    {
        copy.push(list[i].clone());
        i += 1;
    }
    copy
}

/// Decides what the path and the header of a request call for.
pub fn gate(excluded: &Vec<String>, path: &str, authorization: Option<&str>) -> (gate: Gate)
    ensures
        gate_for(
            excluded@,
            path@,
            match authorization {
                Some(header) => Some(header@),
                None => None,
            },
            gate,
        ),
{
    let mut i: usize = 0;
    while i < excluded.len()
        invariant
            i <= excluded.len(),
            forall|j: int| 0 <= j < i ==> !(#[trigger] excluded@[j])@.is_prefix_of(path@),
        decreases excluded.len() - i,
    {
        if has_prefix(path, excluded[i].as_str()) {
            return Gate::Open;
        }
        i += 1;
    }
    match authorization {
        Some(header) => match without_prefix(header, "Bearer ") {
            Some(token) => Gate::Check(token),
            None => Gate::Missing,
        },
        None => Gate::Missing,
    }
}

impl JwtAuth {
    /// The service that checks the tokens.
    pub closed spec fn service(self) -> AuthService {
        self.auth_service
    }

    /// The beginnings of the paths that need no authentication.
    pub closed spec fn excluded(self) -> Seq<String> {
        self.excluded_paths@
    }

    /// Authentication by `auth_service` for every path but the health check
    /// and the login.
    pub fn new(auth_service: AuthService) -> (auth: JwtAuth)
        ensures
            auth.service() == auth_service,
            auth.excluded().len() == 2,
            auth.excluded()[0]@ == "/health"@,
            auth.excluded()[1]@ == "/api/v1/auth/login"@,
    {
        let mut excluded_paths: Vec<String> = Vec::new();
        excluded_paths.push("/health".to_owned());
        excluded_paths.push("/api/v1/auth/login".to_owned());
        JwtAuth { auth_service, excluded_paths }
    }

    /// The same, with the paths that begin with `path` excluded as well.
    pub fn exclude_path(self, path: &str) -> (auth: JwtAuth)
        ensures
            auth.service() == self.service(),
            auth.excluded().len() == self.excluded().len() + 1,
            auth.excluded().drop_last() == self.excluded(),
            auth.excluded().last()@ == path@,
    {
        let mut auth = self;
        auth.excluded_paths.push(path.to_owned());
        auth
    }

    /// Puts the authentication in front of `service`.
    pub fn new_transform<S>(&self, service: S) -> (middleware: JwtAuthMiddleware<S>)
        ensures
            *middleware.inner() == service,
            middleware.auth().secret() == self.service().secret(),
            middleware.auth().expiry_hours() == self.service().expiry_hours(),
            middleware.excluded().len() == self.excluded().len(),
            forall|i: int|
                0 <= i < self.excluded().len() ==> (#[trigger] middleware.excluded()[i])@
                    == self.excluded()[i]@,
    {
        JwtAuthMiddleware {
            service: Rc::new(service),
            auth_service: self.auth_service.duplicate(),
            excluded_paths: copy_of(&self.excluded_paths),
        }
    }
}

/// A service with authentication in front of it.
pub struct JwtAuthMiddleware<S> {
    service: Rc<S>,
    auth_service: AuthService,
    excluded_paths: Vec<String>,
}

impl<S> JwtAuthMiddleware<S> {
    /// The service behind the authentication.
    pub closed spec fn inner(self) -> Rc<S> {
        self.service
    }

    /// The service that checks the tokens.
    pub closed spec fn auth(self) -> AuthService {
        self.auth_service
    }

    /// The beginnings of the paths that need no authentication.
    pub closed spec fn excluded(self) -> Seq<String> {
        self.excluded_paths@
    }

    /// The service behind the authentication.
    pub fn service(&self) -> (service: Rc<S>)
        ensures
            service == self.inner(),
    {
        Rc::clone(&self.service)
    }

    /// What becomes of a request for `path` that carries `authorization` as
    /// its `Authorization` header: it goes on as it is if the path is
    /// excluded; it is turned away if it carries no bearer token or one that
    /// does not pass the check; else it goes on with the token's claims.
    pub fn call(&self, path: &str, authorization: Option<&str>) -> (outcome: AuthOutcome)
        ensures
            is_excluded(self.excluded(), path@) <==> outcome is Forward,
            !is_excluded(self.excluded(), path@) && bearer_token(
                match authorization {
                    Some(header) => Some(header@),
                    None => None,
                },
            ) is None ==> outcome matches AuthOutcome::Unauthorized(Refusal::MissingToken),
            outcome matches AuthOutcome::Unauthorized(Refusal::InvalidToken) ==> bearer_token(
                match authorization {
                    Some(header) => Some(header@),
                    None => None,
                },
            ) is Some,
    {
        match gate(&self.excluded_paths, path, authorization) {
            Gate::Open => AuthOutcome::Forward,
            Gate::Check(token) => match self.auth_service.validate_token(token.as_str()) {
                Ok(claims) => AuthOutcome::ForwardWith(claims),
                Err(_) => AuthOutcome::Unauthorized(Refusal::InvalidToken),
            },
            Gate::Missing => AuthOutcome::Unauthorized(Refusal::MissingToken),
        }
    }
}

/// Something that may carry the claims of an authenticated caller.
pub trait ClaimsExt {
    /// The claims, if the caller was authenticated.
    fn get_claims(&self) -> Option<Claims>;
}

/// A limit on the rate of requests.
pub struct RateLimiter {
    requests_per_minute: u32,
}

/// What a rate limiter decides about a request.
#[derive(Debug, Clone, Copy, PartialEq, Eq, Structural)]
pub enum RateDecision {
    /// Hand the request on to the service.
    Forward,
}

impl RateLimiter {
    /// The limit, in requests per minute.
    pub closed spec fn limit(self) -> u32 {
        self.requests_per_minute
    }

    /// A limiter that allows `requests_per_minute`.
    pub fn new(requests_per_minute: u32) -> (limiter: RateLimiter)
        ensures
            limiter.limit() == requests_per_minute,
    {
        RateLimiter { requests_per_minute }
    }

    /// Puts the limiter in front of `service`.
    pub fn new_transform<S>(&self, service: S) -> (middleware: RateLimiterMiddleware<S>)
        ensures
            middleware.limit() == self.limit(),
            *middleware.inner() == service,
    {
        RateLimiterMiddleware {
            service: Rc::new(service),
            requests_per_minute: self.requests_per_minute,
        }
    }
}

/// A service with a rate limiter in front of it.
pub struct RateLimiterMiddleware<S> {
    service: Rc<S>,
    requests_per_minute: u32,
}

impl<S> RateLimiterMiddleware<S> {
    /// The limit, in requests per minute.
    pub closed spec fn limit(self) -> u32 {
        self.requests_per_minute
    }

    /// The service behind the limiter.
    pub closed spec fn inner(self) -> Rc<S> {
        self.service
    }

    /// The service behind the limiter.
    pub fn service(&self) -> (service: Rc<S>)
        ensures
            service == self.inner(),
    {
        Rc::clone(&self.service)
    }

    /// What to do with a request. No request is held back: every one is
    /// handed on.
    pub fn call(&self) -> (decision: RateDecision)
        ensures
            decision == RateDecision::Forward,
    {
        RateDecision::Forward
    }
}

} // verus!
