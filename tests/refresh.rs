use zklogin_verifier::keys::{KeyId, KeyMaterial, KeyStore};
use zklogin_verifier::refresh::{
    RefreshAction, RefreshEvent, Refresher, DEFAULT_REFRESH_INTERVAL_SECS, FETCH_BACKOFF_SECS,
};

fn key(kid: &str) -> (KeyId, KeyMaterial) {
    (
        KeyId::new("https://accounts.google.com".to_string(), kid.to_string()),
        KeyMaterial {
            kty: "RSA".to_string(),
            e: "AQAB".to_string(),
            n: kid.to_string(),
            alg: "RS256".to_string(),
        },
    )
}

#[test]
fn cycle_visits_each_provider_then_sleeps() {
    let mut r = Refresher::new(2, 3600);
    assert_eq!(r.start(), RefreshAction::Fetch(0));
    assert_eq!(r.step(RefreshEvent::Fetched), RefreshAction::Fetch(1));
    assert_eq!(r.step(RefreshEvent::Fetched), RefreshAction::Sleep(3600));
    assert_eq!(r.step(RefreshEvent::IntervalDone), RefreshAction::Fetch(0));
}

#[test]
fn failed_fetch_backs_off_then_moves_on() {
    let mut r = Refresher::new(3, 60);
    assert_eq!(r.start(), RefreshAction::Fetch(0));
    assert_eq!(r.step(RefreshEvent::FetchFailed), RefreshAction::Backoff(30));
    assert_eq!(FETCH_BACKOFF_SECS, 30);
    assert_eq!(r.step(RefreshEvent::BackoffDone), RefreshAction::Fetch(1));
    assert_eq!(r.step(RefreshEvent::Fetched), RefreshAction::Fetch(2));
    assert_eq!(r.step(RefreshEvent::FetchFailed), RefreshAction::Backoff(30));
    assert_eq!(r.step(RefreshEvent::BackoffDone), RefreshAction::Sleep(60));
}

#[test]
fn no_providers_only_sleeps() {
    let mut r = Refresher::new(0, DEFAULT_REFRESH_INTERVAL_SECS);
    assert_eq!(r.start(), RefreshAction::Sleep(3600));
    assert_eq!(r.step(RefreshEvent::IntervalDone), RefreshAction::Sleep(3600));
}

#[test]
fn repeated_cycle_with_same_responses_changes_nothing() {
    let mut store = KeyStore::new();
    let mut r = Refresher::new(2, 10);
    for _ in 0..2 {
        assert_eq!(r.start(), RefreshAction::Fetch(0));
        for (id, m) in vec![key("a"), key("b")] {
            store.merge_insert(id, m);
        }
        assert_eq!(r.step(RefreshEvent::Fetched), RefreshAction::Fetch(1));
        assert_eq!(r.step(RefreshEvent::FetchFailed), RefreshAction::Backoff(30));
        assert_eq!(r.step(RefreshEvent::BackoffDone), RefreshAction::Sleep(10));
        assert_eq!(store.len(), 2);
        assert_eq!(store.get(&key("a").0).unwrap().n, "a");
        assert_eq!(store.get(&key("b").0).unwrap().n, "b");
    }
}
