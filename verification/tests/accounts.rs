use arkheion::auth::{authorize, candidate_key, strip_bearer, AuthError};
use arkheion::metrics::{EngineMetrics, PollOutcome};
use arkheion::routes::{
    api_stream_secure, handle_login, handle_register, login_redirect, register_redirect,
    POLL_INTERVAL_MS,
};
use arkheion::store::{CredentialStore, RegisterError};

#[test]
fn bearer_prefix_is_stripped() {
    assert_eq!(strip_bearer("Bearer abc"), "abc");
    assert_eq!(strip_bearer("abc"), "abc");
    assert_eq!(strip_bearer("Bearer "), "");
    assert_eq!(strip_bearer(""), "");
}

#[test]
fn candidate_prefers_header_over_query() {
    assert_eq!(
        candidate_key(Some("Bearer tok"), Some("q".to_string())),
        Some("tok".to_string())
    );
    assert_eq!(candidate_key(Some("raw"), None), Some("raw".to_string()));
    assert_eq!(candidate_key(None, Some("q".to_string())), Some("q".to_string()));
    assert_eq!(candidate_key(None, None), None);
}

#[test]
fn missing_credential_is_refused() {
    let r = authorize(&None, false);
    assert_eq!(r, Err(AuthError::MissingKey));
    assert_eq!(AuthError::MissingKey.message(), "Missing API Key");
}

#[test]
fn unknown_credential_is_refused() {
    let r = authorize(&Some("not-a-real-key".to_string()), false);
    assert_eq!(r, Err(AuthError::InvalidKey));
    assert_eq!(AuthError::InvalidKey.message(), "Invalid API Key");
}

#[test]
fn known_credential_is_granted() {
    let r = authorize(&Some("sk_live_1".to_string()), true);
    assert_eq!(r, Ok(()));
}

#[test]
fn stream_requires_a_credential() {
    let store = CredentialStore::new();
    let metrics = EngineMetrics::default();
    let r = api_stream_secure(&store, &metrics, None, None);
    let err = r.err().expect("request without credential must be refused");
    assert_eq!(err, AuthError::MissingKey);
    assert_eq!(err.message(), "Missing API Key");
}

#[test]
fn stream_refuses_unknown_key() {
    let mut store = CredentialStore::new();
    store
        .insert("a@b.com".to_string(), "sk_live_1".to_string())
        .expect("fresh identifier must register");
    let metrics = EngineMetrics::default();
    let r = api_stream_secure(&store, &metrics, None, Some("not-a-real-key".to_string()));
    let err = r.err().expect("unknown key must be refused");
    assert_eq!(err, AuthError::InvalidKey);
    assert_eq!(err.message(), "Invalid API Key");
}

#[test]
fn stream_serves_registered_key() {
    let mut store = CredentialStore::new();
    store
        .insert("a@b.com".to_string(), "sk_live_1".to_string())
        .expect("fresh identifier must register");
    let mut metrics = EngineMetrics::default();
    metrics.apply_poll(&PollOutcome::Success { height: 1000, epoch: 5, latency_ms: 12 });

    // Through the Authorization header.
    let r = api_stream_secure(&store, &metrics, Some("Bearer sk_live_1"), None);
    let snap = r.ok().expect("registered key must be served");
    assert_eq!(snap.slot, 1000);
    assert_eq!(snap.epoch, 5);
    assert_eq!(snap.latency, 12);
    assert_eq!(snap.status.label(), "OPERATIONAL");

    // Through the query parameter.
    let r2 = api_stream_secure(&store, &metrics, None, Some("sk_live_1".to_string()));
    assert!(r2.is_ok());
}

#[test]
fn registering_twice_fails_with_duplicate() {
    let mut store = CredentialStore::new();
    let first = handle_register(&mut store, "a@b.com", "sk_live_first");
    assert_eq!(first, "/dashboard?u=a@b.com");
    let second = handle_register(&mut store, "a@b.com", "sk_live_second");
    assert_eq!(second, "/login?err=exists");
    // The first credential is still valid and lookupable.
    assert!(store.find_by_key(&"sk_live_first".to_string()));
    assert!(store.find_by_identifier(&"a@b.com".to_string()));
    assert!(!store.find_by_key(&"sk_live_second".to_string()));
    assert_eq!(store.len(), 1);
}

#[test]
fn duplicate_identifier_error_is_distinct() {
    let mut store = CredentialStore::new();
    assert_eq!(store.insert("a@b.com".to_string(), "k1".to_string()), Ok(()));
    assert_eq!(
        store.insert("a@b.com".to_string(), "k2".to_string()),
        Err(RegisterError::DuplicateIdentifier)
    );
    assert_eq!(
        store.insert("c@d.com".to_string(), "k1".to_string()),
        Err(RegisterError::DuplicateKey)
    );
    assert_eq!(store.insert("c@d.com".to_string(), "k2".to_string()), Ok(()));
    assert_eq!(store.len(), 2);
}

#[test]
fn login_probe_redirects() {
    let mut store = CredentialStore::new();
    store
        .insert("a@b.com".to_string(), "k1".to_string())
        .expect("fresh identifier must register");
    assert_eq!(handle_login(&store, "a@b.com"), "/dashboard?u=a@b.com");
    assert_eq!(handle_login(&store, "x@y.com"), "/register");
}

#[test]
fn redirect_targets() {
    assert_eq!(register_redirect(true, "a@b.com"), "/login?err=exists");
    assert_eq!(register_redirect(false, "a@b.com"), "/dashboard?u=a@b.com");
    assert_eq!(login_redirect(true, "a@b.com"), "/dashboard?u=a@b.com");
    assert_eq!(login_redirect(false, "a@b.com"), "/register");
}

#[test]
fn poll_cadence_is_one_second() {
    assert_eq!(POLL_INTERVAL_MS, 1000);
}
