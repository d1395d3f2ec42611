//! The authorization gate of the telemetry endpoint.
//!
//! A request may carry a credential in an `Authorization` header —
//! with a `Bearer ` prefix, which is stripped — or, failing that, in a
//! `key` query parameter. A request with neither is rejected as missing
//! a key; a request whose candidate key is unknown to the credential
//! store is rejected as invalid; any other request is served.

use vstd::prelude::*;

verus! {

/// Why a request was refused.
#[derive(Clone, Copy, PartialEq, Eq, Structural, Debug)]
pub enum AuthError {
    /// Neither an `Authorization` header nor a `key` query parameter
    /// was present.
    MissingKey,
    /// A candidate key was present but no account holds it.
    InvalidKey,
}

impl AuthError {
    /// The error label served to the caller alongside the 401.
    pub fn message(&self) -> (r: String)
        ensures
            *self == AuthError::MissingKey ==> r@ == "Missing API Key"@,
            *self == AuthError::InvalidKey ==> r@ == "Invalid API Key"@,
    {
        match self {
            AuthError::MissingKey => "Missing API Key".to_owned(),
            AuthError::InvalidKey => "Invalid API Key".to_owned(),
        }
    }
}

/// A header value with its `Bearer ` prefix stripped; a value without
/// that prefix stands as it is.
pub open spec fn bearer_stripped(h: Seq<char>) -> Seq<char> {
    if h.len() >= 7 && h.subrange(0, 7) == "Bearer "@ {
        h.subrange(7, h.len() as int)
    } else {
        h
    }
}

/// Strip the `Bearer ` prefix off a header value, if it carries one.
pub fn strip_bearer(header: &str) -> (r: String)
    ensures
        r@ == bearer_stripped(header@),
{
    proof {
        reveal_strlit("Bearer ");
    }
    let n = header.unicode_len();
    if n >= 7 {
        let prefix = header.substring_char(0, 7);
        if prefix.to_owned() == "Bearer ".to_owned() {
            let rest = header.substring_char(7, n);
            return rest.to_owned();
        }
    }
    header.to_owned()
}

/// The candidate credential of a request: the stripped header value
/// when a header is present, else the query parameter, else nothing.
pub open spec fn spec_candidate(
    header: Option<&str>,
    query_key: Option<String>,
) -> Option<Seq<char>> {
    match header {
        Some(h) => Some(bearer_stripped(h@)),
        None => match query_key {
            Some(q) => Some(q@),
            None => None,
        },
    }
}

/// Extract the candidate credential of a request: the `Authorization`
/// header, stripped of a `Bearer ` prefix, and the `key` query
/// parameter as the fallback.
pub fn candidate_key(header: Option<&str>, query_key: Option<String>) -> (r: Option<String>)
    ensures
        match spec_candidate(header, query_key) {
            Some(c) => r matches Some(k) && k@ == c,
            None => r is None,
        },
{
    match header {
        Some(h) => Some(strip_bearer(h)),
        None => query_key,
    }
}

/// Judge a request from its candidate credential and the credential
/// store's answer about that candidate. `key_known` is meaningful only
/// when a candidate is present; without one the request is refused
/// before any lookup.
pub fn authorize(candidate: &Option<String>, key_known: bool) -> (r: Result<(), AuthError>)
    ensures
        candidate is None ==> r == Err::<(), AuthError>(AuthError::MissingKey),
        candidate is Some && !key_known ==> r == Err::<(), AuthError>(AuthError::InvalidKey),
        candidate is Some && key_known ==> r is Ok,
{
    match candidate {
        None => Err(AuthError::MissingKey),
        Some(_) => {
            if key_known {
                Ok(())
            } else {
                Err(AuthError::InvalidKey)
            }
        },
    }
}

} // verus!
