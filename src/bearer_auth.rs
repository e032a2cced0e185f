//! Bearer-token gating of requests: which requests pass without a token,
//! which are turned away, and which token is checked.

use vstd::prelude::*;
use vstd::string::*;
use crate::auth::{
    accepted_at, token_claims, verifies_at, AuthError, AuthVerifier, Claims, MAX_TIMESTAMP,
};
use crate::text::{ascii_chars, header_text, is_header_text, is_prefix, starts_with};

verus! {

/// Why a request was turned away; both answer with the same status.
#[non_exhaustive]
#[derive(Debug, Clone, Copy, PartialEq, Eq, Structural)]
pub enum BearTokenError {
    /// The `Authorization` header is not present.
    Missing,
    /// The `Authorization` header is not text, or its token was rejected.
    Invalid,
}

impl BearTokenError {
    /// The HTTP status of the response that replaces the request.
    pub fn status(&self) -> (r: u16)
        ensures
            r == 401,
    {
        match self {
            BearTokenError::Missing => 401,
            BearTokenError::Invalid => 401,
        }
    }
}

/// A service behind the bearer-token check.
#[derive(Clone)]
pub struct BearerTokenProvider<S> {
    pub inner: S,
}

/// A layer that puts services behind the bearer-token check.
#[derive(Debug)]
#[non_exhaustive]
pub struct BearerTokenProviderLayer {}

/// What the check makes of a request before any token is verified.
pub enum Gate {
    /// The path needs no token: the request goes on unchanged.
    Bypass,
    /// The request is turned away.
    Reject(BearTokenError),
    /// The request needs this token verified.
    Check(String),
}

/// Paths that need no token: those under `/signin` or `/echo`.
pub open spec fn bypass_path(path: Seq<char>) -> bool {
    is_prefix("/signin"@, path) || is_prefix("/echo"@, path)
}

/// The token in an `Authorization` value: what follows the one leading
/// `Bearer ` (case-sensitive), or `None` where the value does not start so.
pub open spec fn bearer_token_of(s: Seq<char>) -> Option<Seq<char>> {
    if is_prefix("Bearer "@, s) {
        Some(s.skip("Bearer "@.len() as int))
    } else {
        None
    }
}

/// Whether `path` needs no token.
pub fn is_bypass_path(path: &str) -> (r: bool)
    ensures
        r == bypass_path(path@),
{
    let a = starts_with(path, "/signin");
    let b = starts_with(path, "/echo");
    a || b
}

/// The token in an `Authorization` value, or `None` where the value does
/// not start with `Bearer `.
pub fn bearer_token(value: &str) -> (r: Option<String>)
    ensures
        match bearer_token_of(value@) {
            Some(t) => r matches Some(s) && s@ == t,
            None => r is None,
        },
{
    proof { reveal_strlit("Bearer "); }
    if starts_with(value, "Bearer ") {
        let n = value.unicode_len();
        Some(String::from_str(value.substring_char(7, n)))
    } else {
        None
    }
}

/// The check's answer once a token has been verified: its claims, or the
/// request turned away as invalid, whatever the reason of the failure.
pub fn decide_verified(verified: Result<Claims, AuthError>) -> (r: Result<Option<Claims>, BearTokenError>)
    ensures
        match verified {
            Ok(c) => r == Ok::<Option<Claims>, BearTokenError>(Some(c)),
            Err(_) => r == Err::<Option<Claims>, BearTokenError>(BearTokenError::Invalid),
        },
{
    match verified {
        Ok(c) => Ok(Some(c)),
        Err(_) => Err(BearTokenError::Invalid),
    }
}

impl BearerTokenProviderLayer {
    pub fn new() -> (r: Self) {
        BearerTokenProviderLayer {}
    }

    /// Puts `inner` behind the bearer-token check.
    pub fn layer<S>(&self, inner: S) -> (r: BearerTokenProvider<S>)
        ensures
            r.inner == inner,
    {
        BearerTokenProvider { inner }
    }
}

impl<S> BearerTokenProvider<S> {
    /// Decides a request by its path and its `Authorization` header (raw
    /// bytes, if present).
    pub fn process(&self, path: &str, authorization: Option<&[u8]>) -> (r: Gate)
        ensures
            bypass_path(path@) ==> r is Bypass,
            !bypass_path(path@) ==> match authorization {
                None => r matches Gate::Reject(BearTokenError::Missing),
                Some(h) => match (is_header_text(h@), bearer_token_of(ascii_chars(h@))) {
                    (true, Some(t)) => r matches Gate::Check(s) && s@ == t,
                    _ => r matches Gate::Reject(BearTokenError::Invalid),
                },
            },
    {
        if is_bypass_path(path) {
            return Gate::Bypass;
        }
        match authorization {
            None => Gate::Reject(BearTokenError::Missing),
            Some(h) => match header_text(h) {
                Some(v) => match bearer_token(v.as_str()) {
                    Some(t) => Gate::Check(t),
                    None => Gate::Reject(BearTokenError::Invalid),
                },
                None => Gate::Reject(BearTokenError::Invalid),
            },
        }
    }

    /// The full check at time `now`: `Ok(None)` lets the request through
    /// unchanged, `Ok(Some(claims))` lets it through with the caller's
    /// claims, and `Err` turns it away without reaching the inner service.
    pub fn authenticate(
        &self,
        verifier: &AuthVerifier,
        path: &str,
        authorization: Option<&[u8]>,
        now: u64,
    ) -> (r: Result<Option<Claims>, BearTokenError>)
        requires
            now <= MAX_TIMESTAMP,
        ensures
            bypass_path(path@) ==> r matches Ok(None),
            !bypass_path(path@) ==> match authorization {
                None => r matches Err(BearTokenError::Missing),
                Some(h) => match (is_header_text(h@), bearer_token_of(ascii_chars(h@))) {
                    (true, Some(t)) => {
                        &&& (r matches Ok(Some(_))) <==> verifies_at(verifier.key_pem(), t, now)
                        &&& r matches Ok(Some(c)) ==> c@ == token_claims(t) && accepted_at(c@, now)
                        &&& r matches Err(e) ==> e == BearTokenError::Invalid
                        &&& !(r matches Ok(None))
                    },
                    _ => r matches Err(BearTokenError::Invalid),
                },
            },
    {
        match self.process(path, authorization) {
            Gate::Bypass => Ok(None),
            Gate::Reject(e) => Err(e),
            Gate::Check(token) => decide_verified(verifier.verify_at(token.as_str(), now)),
        }
    }
}

} // verus!
