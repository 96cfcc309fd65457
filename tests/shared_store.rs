use zklogin_verifier::keys::{KeyId, KeyMaterial};
use zklogin_verifier::shared::SharedKeyStore;

fn key(kid: String, n: &str) -> (KeyId, KeyMaterial) {
    (
        KeyId::new("iss".to_string(), kid),
        KeyMaterial { kty: "RSA".to_string(), e: "AQAB".to_string(), n: n.to_string(), alg: "RS256".to_string() },
    )
}

#[test]
fn shared_store_first_write_wins() {
    let s = SharedKeyStore::new();
    let (id, m) = key("a".to_string(), "v1");
    assert!(s.merge_insert(id, m));
    let (id, m) = key("a".to_string(), "v2");
    assert!(!s.merge_insert(id, m));
    let snap = s.snapshot();
    assert_eq!(snap.len(), 1);
    assert_eq!(snap.get(&KeyId::new("iss".to_string(), "a".to_string())).unwrap().n, "v1");
}

#[test]
fn shared_snapshot_is_detached() {
    let s = SharedKeyStore::new();
    let (id, m) = key("a".to_string(), "v");
    s.merge_insert(id, m);
    let snap = s.snapshot();
    let (id, m) = key("b".to_string(), "v");
    s.merge_insert(id, m);
    assert_eq!(snap.len(), 1);
    assert_eq!(s.snapshot().len(), 2);
    let (first, material) = snap.entry_at(0);
    assert_eq!(first.kid, "a");
    assert_eq!(material.n, "v");
}
