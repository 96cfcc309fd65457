use zklogin_verifier::keys::{KeyId, KeyMaterial, KeyStore};

fn id(iss: &str, kid: &str) -> KeyId {
    KeyId::new(iss.to_string(), kid.to_string())
}

fn material(n: &str) -> KeyMaterial {
    KeyMaterial {
        kty: "RSA".to_string(),
        e: "AQAB".to_string(),
        n: n.to_string(),
        alg: "RS256".to_string(),
    }
}

#[test]
fn empty_store_has_nothing() {
    let store = KeyStore::new();
    assert_eq!(store.len(), 0);
    assert!(store.get(&id("https://accounts.google.com", "k1")).is_none());
}

#[test]
fn first_write_wins() {
    let mut store = KeyStore::new();
    assert!(store.merge_insert(id("https://accounts.google.com", "k1"), material("v1")));
    assert!(!store.merge_insert(id("https://accounts.google.com", "k1"), material("v2")));
    let got = store.get(&id("https://accounts.google.com", "k1")).unwrap();
    assert_eq!(got.n, "v1");
    assert_eq!(store.len(), 1);
}

#[test]
fn same_kid_under_another_issuer_is_another_key() {
    let mut store = KeyStore::new();
    assert!(store.merge_insert(id("https://accounts.google.com", "k1"), material("g")));
    assert!(store.merge_insert(id("https://www.facebook.com", "k1"), material("f")));
    assert_eq!(store.len(), 2);
    assert_eq!(store.get(&id("https://www.facebook.com", "k1")).unwrap().n, "f");
}

#[test]
fn snapshot_is_unaffected_by_later_inserts() {
    let mut store = KeyStore::new();
    store.merge_insert(id("iss", "a"), material("a"));
    let snap = store.snapshot();
    store.merge_insert(id("iss", "b"), material("b"));
    assert_eq!(snap.len(), 1);
    assert!(snap.get(&id("iss", "b")).is_none());
    assert_eq!(snap.get(&id("iss", "a")).unwrap().n, "a");
    assert_eq!(store.len(), 2);
}

#[test]
fn batch_merge_keeps_first_of_duplicates() {
    let mut store = KeyStore::new();
    store.merge_insert(id("iss", "a"), material("old"));
    let batch = vec![
        (id("iss", "a"), material("new")),
        (id("iss", "b"), material("b1")),
        (id("iss", "b"), material("b2")),
    ];
    store.merge_batch(&batch);
    assert_eq!(store.len(), 2);
    assert_eq!(store.get(&id("iss", "a")).unwrap().n, "old");
    assert_eq!(store.get(&id("iss", "b")).unwrap().n, "b1");
}

#[test]
fn merging_same_batch_twice_changes_nothing() {
    let mut store = KeyStore::new();
    let batch = vec![(id("iss", "a"), material("a")), (id("iss", "b"), material("b"))];
    store.merge_batch(&batch);
    let first = store.snapshot();
    store.merge_batch(&batch);
    assert_eq!(store.len(), first.len());
    assert_eq!(store.get(&id("iss", "a")).unwrap().n, "a");
    assert_eq!(store.get(&id("iss", "b")).unwrap().n, "b");
}

#[test]
fn copies_keep_fields() {
    let k = id("iss", "kid");
    let c = k.copy();
    assert!(c.same_as(&k));
    assert!(!c.same_as(&id("iss", "other")));
    let m = material("mod");
    let mc = m.copy();
    assert_eq!(mc.kty, "RSA");
    assert_eq!(mc.e, "AQAB");
    assert_eq!(mc.n, "mod");
    assert_eq!(mc.alg, "RS256");
}
