//! The key store shared between request handlers and the refresher.
//! Readers take snapshots side by side; a writer holds the lock only for
//! one key's test-and-insert.

use vstd::prelude::*;
use vstd::rwlock::{RwLock, RwLockPredicate};
use crate::keys::{KeyId, KeyMaterial, KeyStore};

verus! {

/// What the lock guarantees of the store it holds: it is well formed.
pub struct WellFormedStore;

impl RwLockPredicate<KeyStore> for WellFormedStore {
    open spec fn inv(self, v: KeyStore) -> bool {
        v.wf()
    }
}

/// A key store behind a reader-writer lock.
pub struct SharedKeyStore {
    lock: RwLock<KeyStore, WellFormedStore>,
}

impl SharedKeyStore {
    /// A shared store holding no keys.
    pub fn new() -> (r: SharedKeyStore) {
        SharedKeyStore { lock: RwLock::new(KeyStore::new(), Ghost(WellFormedStore)) }
    }

    /// Inserts `material` under `id` unless `id` is present, holding the
    /// write lock for this one entry only. Returns whether it was added.
    pub fn merge_insert(&self, id: KeyId, material: KeyMaterial) -> (added: bool) {
        let (mut store, handle) = self.lock.acquire_write();
        let added = store.merge_insert(id, material);
        handle.release_write(store);
        added
    }

    /// A copy of the store as it stands between two insertions; every
    /// entry in it is whole, and later insertions do not reach it.
    pub fn snapshot(&self) -> (r: KeyStore)
        ensures
            r.wf(),
    {
        let handle = self.lock.acquire_read();
        let r = handle.borrow().snapshot();
        handle.release_read();
        r
    }
}

/// State shared by the request handlers: the key store that the refresher fills.
pub struct AppState {
    pub jwks: std::sync::Arc<SharedKeyStore>,
}

} // verus!
