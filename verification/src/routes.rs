//! Request decisions of the HTTP surface.
//!
//! Each function here is the decision half of one route: registration
//! and login reduce to a store operation plus a redirect target, and the
//! telemetry stream reduces to the authorization gate plus a snapshot
//! read. The HTTP listener itself, form decoding and JSON framing stay
//! outside.

use crate::auth::{candidate_key, spec_candidate, AuthError};
use crate::metrics::EngineMetrics;
use crate::store::CredentialStore;
use vstd::prelude::*;

verus! {

/// Cadence of the background poller, in milliseconds. One fixed choice,
/// configuration rather than semantics; a failing upstream is retried at
/// this same cadence, with no backoff.
pub const POLL_INTERVAL_MS: u64 = 1000;

/// The redirect target after a registration attempt: the dashboard,
/// carrying the identifier, on success; the login view, carrying a
/// duplicate flag, on failure.
pub fn register_redirect(duplicate: bool, identifier: &str) -> (r: String)
    ensures
        duplicate ==> r@ == "/login?err=exists"@,
        !duplicate ==> r@ == "/dashboard?u="@ + identifier@,
{
    if duplicate {
        "/login?err=exists".to_owned()
    } else {
        let mut s = "/dashboard?u=".to_owned();
        s.append(identifier);
        s
    }
}

/// Register `identifier` with the freshly issued `api_key` and decide
/// the redirect: the dashboard when the account was created, the login
/// view with its duplicate flag when the store refused the insert — in
/// which case the store is unchanged and every earlier credential still
/// resolves.
pub fn handle_register(store: &mut CredentialStore, identifier: &str, api_key: &str) -> (r:
    String)
    requires
        old(store).wf(),
    ensures
        final(store).wf(),
        old(store).has_identifier(identifier@) || old(store).has_key(api_key@) ==> {
            &&& r@ == "/login?err=exists"@
            &&& *final(store) == *old(store)
        },
        !old(store).has_identifier(identifier@) && !old(store).has_key(api_key@) ==> {
            &&& r@ == "/dashboard?u="@ + identifier@
            &&& final(store).accounts_view().len() == old(store).accounts_view().len() + 1
            &&& final(store).has_identifier(identifier@)
            &&& final(store).has_key(api_key@)
        },
        forall|k: Seq<char>| old(store).has_key(k) ==> final(store).has_key(k),
        forall|id: Seq<char>|
            old(store).has_identifier(id) ==> final(store).has_identifier(id),
{
    let res = store.insert(identifier.to_owned(), api_key.to_owned());
    match res {
        Ok(()) => register_redirect(false, identifier),
        Err(_) => register_redirect(true, identifier),
    }
}

/// The redirect target after a login probe, from the store's answer:
/// the dashboard, carrying the identifier, when the account exists; the
/// registration view when it does not.
pub fn login_redirect(exists: bool, identifier: &str) -> (r: String)
    ensures
        exists ==> r@ == "/dashboard?u="@ + identifier@,
        !exists ==> r@ == "/register"@,
{
    if exists {
        let mut s = "/dashboard?u=".to_owned();
        s.append(identifier);
        s
    } else {
        "/register".to_owned()
    }
}

/// Probe the store for `identifier` and decide the redirect: the
/// dashboard when the account exists, the registration view when it
/// does not.
pub fn handle_login(store: &CredentialStore, identifier: &str) -> (r: String)
    ensures
        store.has_identifier(identifier@) ==> r@ == "/dashboard?u="@ + identifier@,
        !store.has_identifier(identifier@) ==> r@ == "/register"@,
{
    let exists = store.find_by_identifier(&identifier.to_owned());
    login_redirect(exists, identifier)
}

/// Serve the authenticated telemetry stream: extract the candidate
/// credential, refuse a request without one as missing and one whose
/// candidate no account holds as invalid, and answer every other
/// request with an independent copy of the current snapshot.
pub fn api_stream_secure(
    store: &CredentialStore,
    metrics: &EngineMetrics,
    auth_header: Option<&str>,
    query_key: Option<String>,
) -> (r: Result<EngineMetrics, AuthError>)
    requires
        metrics.wf(),
    ensures
        match spec_candidate(auth_header, query_key) {
            None => r == Err::<EngineMetrics, AuthError>(AuthError::MissingKey),
            Some(c) => {
                if store.has_key(c) {
                    r matches Ok(m) && m.wf() && m.slot == metrics.slot && m.tps == metrics.tps
                        && m.epoch == metrics.epoch && m.latency == metrics.latency
                        && m.status == metrics.status && m.history@ == metrics.history@
                } else {
                    r == Err::<EngineMetrics, AuthError>(AuthError::InvalidKey)
                }
            },
        },
{
    let cand = candidate_key(auth_header, query_key);
    match cand {
        None => Err(AuthError::MissingKey),
        Some(k) => {
            if store.find_by_key(&k) {
                Ok(metrics.snapshot())
            } else {
                Err(AuthError::InvalidKey)
            }
        },
    }
}

} // verus!
