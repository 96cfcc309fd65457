//! Identity-provider keys and the first-write-wins key store.

use vstd::prelude::*;

verus! {

/// Mathematical form of a [`KeyId`]: issuer and key identifier.
pub type KeyIdView = (Seq<char>, Seq<char>);

/// Mathematical form of a [`KeyMaterial`]: key type, exponent, modulus, algorithm.
pub type KeyMaterialView = (Seq<char>, Seq<char>, Seq<char>, Seq<char>);

/// Identifies one published key: the issuer of the identity provider and the
/// key id under which the provider publishes it.
#[derive(Debug)]
pub struct KeyId {
    pub iss: String,
    pub kid: String,
}

impl View for KeyId {
    type V = KeyIdView;

    open spec fn view(&self) -> KeyIdView {
        (self.iss@, self.kid@)
    }
}

/// Public key material as an identity provider publishes it.
#[derive(Debug)]
pub struct KeyMaterial {
    pub kty: String,
    pub e: String,
    pub n: String,
    pub alg: String,
}

impl View for KeyMaterial {
    type V = KeyMaterialView;

    open spec fn view(&self) -> KeyMaterialView {
        (self.kty@, self.e@, self.n@, self.alg@)
    }
}

impl KeyId {
    pub fn new(iss: String, kid: String) -> (r: KeyId)
        ensures
            r@ == (iss@, kid@),
    {
        KeyId { iss, kid }
    }

    /// A field-by-field copy.
    pub fn copy(&self) -> (r: KeyId)
        ensures
            r@ == self@,
    {
        KeyId { iss: self.iss.clone(), kid: self.kid.clone() }
    }

    /// Whether both identify the same key.
    pub fn same_as(&self, other: &KeyId) -> (r: bool)
        ensures
            r == (self@ == other@),
    {
        self.iss == other.iss && self.kid == other.kid
    }
}

impl KeyMaterial {
    /// A field-by-field copy.
    pub fn copy(&self) -> (r: KeyMaterial)
        ensures
            r@ == self@,
    {
        KeyMaterial {
            kty: self.kty.clone(),
            e: self.e.clone(),
            n: self.n.clone(),
            alg: self.alg.clone(),
        }
    }
}

/// The view of a fetched key list.
pub open spec fn batch_view(b: Seq<(KeyId, KeyMaterial)>) -> Seq<(KeyIdView, KeyMaterialView)> {
    b.map_values(|p: (KeyId, KeyMaterial)| (p.0@, p.1@))
}

/// Inserting one entry under first-write-wins: an id already present keeps its material.
pub open spec fn merge_one(
    m: Map<KeyIdView, KeyMaterialView>,
    k: KeyIdView,
    v: KeyMaterialView,
) -> Map<KeyIdView, KeyMaterialView> {
    if m.contains_key(k) {
        m
    } else {
        m.insert(k, v)
    }
}

/// Inserting a list of entries in order, each under first-write-wins.
pub open spec fn merge_all(
    m: Map<KeyIdView, KeyMaterialView>,
    b: Seq<(KeyIdView, KeyMaterialView)>,
) -> Map<KeyIdView, KeyMaterialView>
    decreases b.len(),
{
    if b.len() == 0 {
        m
    } else {
        merge_one(merge_all(m, b.drop_last()), b.last().0, b.last().1)
    }
}

/// The shared mapping from key id to key material. Entries are only ever
/// added, and an entry once added keeps its material.
pub struct KeyStore {
    entries: Vec<(KeyId, KeyMaterial)>,
    contents: Ghost<Map<KeyIdView, KeyMaterialView>>,
}

impl View for KeyStore {
    type V = Map<KeyIdView, KeyMaterialView>;

    closed spec fn view(&self) -> Map<KeyIdView, KeyMaterialView> {
        self.contents@
    }
}

impl KeyStore {
    /// The entries agree with the mapping, and no id occurs twice.
    pub closed spec fn wf(&self) -> bool {
        &&& self.contents@.dom().finite()
        &&& forall|i: int|
            0 <= i < self.entries@.len() ==> {
                &&& #[trigger] self.contents@.contains_key(self.entries@[i].0@)
                &&& self.contents@[self.entries@[i].0@] == self.entries@[i].1@
            }
        &&& forall|k: KeyIdView|
            #[trigger] self.contents@.contains_key(k) ==> exists|i: int|
                0 <= i < self.entries@.len() && #[trigger] self.entries@[i].0@ == k
        &&& forall|i: int, j: int|
            0 <= i < j < self.entries@.len() ==> #[trigger] self.entries@[i].0@
                != #[trigger] self.entries@[j].0@
    }

    /// An empty store.
    pub fn new() -> (r: KeyStore)
        ensures
            r.wf(),
            r@ == Map::<KeyIdView, KeyMaterialView>::empty(),
    {
        KeyStore { entries: Vec::new(), contents: Ghost(Map::empty()) }
    }

    /// Number of keys held.
    pub fn len(&self) -> (r: usize)
        requires
            self.wf(),
        ensures
            r == self@.len(),
    {
        proof {
            self.lemma_len();
        }
        self.entries.len()
    }

    proof fn lemma_len(&self)
        requires
            self.wf(),
        ensures
            self@.len() == self.entries@.len(),
    {
        let ids = Seq::new(self.entries@.len(), |i: int| self.entries@[i].0@);
        assert forall|i: int, j: int| 0 <= i < j < ids.len() implies ids[i] != ids[j] by {
            assert(self.entries@[i].0@ != self.entries@[j].0@);
        }
        assert(ids.no_duplicates());
        ids.unique_seq_to_set();
        assert forall|k: KeyIdView| self@.contains_key(k) <==> ids.to_set().contains(k) by {
            if self@.contains_key(k) {
                let i = choose|i: int| 0 <= i < self.entries@.len() && #[trigger] self.entries@[i].0@ == k;
                assert(ids[i] == k);
            }
            if ids.to_set().contains(k) {
                let i = choose|i: int| 0 <= i < ids.len() && ids[i] == k;
                assert(self.contents@.contains_key(self.entries@[i].0@));
            }
        }
        assert(self@.dom() =~= ids.to_set());
    }

    /// The entry at position `i` of the store's internal order.
    pub fn entry_at(&self, i: usize) -> (r: (KeyId, KeyMaterial))
        requires
            self.wf(),
            i < self@.len(),
        ensures
            self@.contains_key(r.0@),
            self@[r.0@] == r.1@,
    {
        proof {
            self.lemma_len();
        }
        (self.entries[i].0.copy(), self.entries[i].1.copy())
    }

    /// Looks up the material stored under `id`.
    pub fn get(&self, id: &KeyId) -> (r: Option<KeyMaterial>)
        requires
            self.wf(),
        ensures
            r.is_none() == !self@.contains_key(id@),
            r.is_some() ==> r.unwrap()@ == self@[id@],
    {
        let mut i: usize = 0;
        while i < self.entries.len()
            invariant
                self.wf(),
                0 <= i <= self.entries@.len(),
                forall|j: int| 0 <= j < i ==> #[trigger] self.entries@[j].0@ != id@,
            decreases self.entries@.len() - i,
        {
            if self.entries[i].0.same_as(id) {
                return Some(self.entries[i].1.copy());
            }
            i = i + 1;
        }
        proof {
            if self@.contains_key(id@) {
                let j = choose|j: int| 0 <= j < self.entries@.len() && #[trigger] self.entries@[j].0@ == id@;
                assert(self.entries@[j].0@ != id@);
            }
        }
        None
    }

    /// Inserts `material` under `id` unless `id` is already present, in which
    /// case nothing changes. Returns whether the entry was added.
    pub fn merge_insert(&mut self, id: KeyId, material: KeyMaterial) -> (added: bool)
        requires
            old(self).wf(),
        ensures
            final(self).wf(),
            added == !old(self)@.contains_key(id@),
            final(self)@ == merge_one(old(self)@, id@, material@),
    {
        let mut i: usize = 0;
        while i < self.entries.len()
            invariant
                self.wf(),
                0 <= i <= self.entries@.len(),
                forall|j: int| 0 <= j < i ==> #[trigger] self.entries@[j].0@ != id@,
            decreases self.entries@.len() - i,
        {
            if self.entries[i].0.same_as(&id) {
                return false;
            }
            i = i + 1;
        }
        proof {
            if self@.contains_key(id@) {
                let j = choose|j: int| 0 <= j < self.entries@.len() && #[trigger] self.entries@[j].0@ == id@;
                assert(self.entries@[j].0@ != id@);
            }
        }
        let ghost old_entries = self.entries@;
        assert(forall|j: int| 0 <= j < old_entries.len() ==> #[trigger] old_entries[j].0@ != id@);
        assert(forall|i: int, j: int|
            0 <= i < j < old_entries.len() ==> #[trigger] old_entries[i].0@ != #[trigger] old_entries[j].0@);
        let ghost k = id@;
        let ghost v = material@;
        self.entries.push((id, material));
        self.contents = Ghost(self.contents@.insert(k, v));
        proof {
            let n = old_entries.len();
            assert(self.entries@[n as int].0@ == k);
            assert forall|kk: KeyIdView| #[trigger] self.contents@.contains_key(kk) implies exists|i: int|
                0 <= i < self.entries@.len() && #[trigger] self.entries@[i].0@ == kk by {
                if kk != k {
                    let i = choose|i: int| 0 <= i < old_entries.len() && #[trigger] old_entries[i].0@ == kk;
                    assert(self.entries@[i] == old_entries[i]);
                }
            }
            assert forall|i: int| 0 <= i < self.entries@.len() implies {
                &&& #[trigger] self.contents@.contains_key(self.entries@[i].0@)
                &&& self.contents@[self.entries@[i].0@] == self.entries@[i].1@
            } by {
                if i < n {
                    assert(self.entries@[i] == old_entries[i]);
                }
            }
            assert forall|i: int, j: int| 0 <= i < j < self.entries@.len() implies #[trigger] self.entries@[i].0@
                != #[trigger] self.entries@[j].0@ by {
                if j < n {
                    assert(self.entries@[i] == old_entries[i]);
                    assert(self.entries@[j] == old_entries[j]);
                    assert(old_entries[i].0@ != old_entries[j].0@);
                } else {
                    assert(self.entries@[i] == old_entries[i]);
                    assert(old_entries[i].0@ != k);
                }
            }
        }
        true
    }

    /// Merges every fetched entry in order, each under first-write-wins.
    pub fn merge_batch(&mut self, batch: &Vec<(KeyId, KeyMaterial)>)
        requires
            old(self).wf(),
        ensures
            final(self).wf(),
            final(self)@ == merge_all(old(self)@, batch_view(batch@)),
    {
        let ghost start = self@;
        let ghost bv = batch_view(batch@);
        let mut i: usize = 0;
        while i < batch.len()
            invariant
                self.wf(),
                0 <= i <= batch@.len(),
                bv == batch_view(batch@),
                self@ == merge_all(start, bv.take(i as int)),
            decreases batch@.len() - i,
        {
            let id = batch[i].0.copy();
            let material = batch[i].1.copy();
            self.merge_insert(id, material);
            proof {
                let t = bv.take(i + 1);
                assert(t.drop_last() =~= bv.take(i as int));
                assert(t.last() == (batch@[i as int].0@, batch@[i as int].1@));
            }
            i = i + 1;
        }
        assert(bv.take(batch@.len() as int) =~= bv);
    }

    /// A point-in-time copy of the store, independent of later changes.
    pub fn snapshot(&self) -> (r: KeyStore)
        requires
            self.wf(),
        ensures
            r.wf(),
            r@ == self@,
    {
        let mut out: Vec<(KeyId, KeyMaterial)> = Vec::new();
        let mut i: usize = 0;
        while i < self.entries.len()
            invariant
                0 <= i <= self.entries@.len(),
                out@.len() == i,
                forall|j: int|
                    0 <= j < i ==> (#[trigger] out@[j]).0@ == self.entries@[j].0@ && out@[j].1@
                        == self.entries@[j].1@,
            decreases self.entries@.len() - i,
        {
            out.push((self.entries[i].0.copy(), self.entries[i].1.copy()));
            i = i + 1;
        }
        let r = KeyStore { entries: out, contents: Ghost(self.contents@) };
        proof {
            assert forall|k: KeyIdView| #[trigger] r.contents@.contains_key(k) implies exists|i: int|
                0 <= i < r.entries@.len() && #[trigger] r.entries@[i].0@ == k by {
                let i = choose|i: int| 0 <= i < self.entries@.len() && #[trigger] self.entries@[i].0@ == k;
                assert(r.entries@[i].0@ == k);
            }
            assert forall|i: int, j: int| 0 <= i < j < r.entries@.len() implies #[trigger] r.entries@[i].0@
                != #[trigger] r.entries@[j].0@ by {
                assert(self.entries@[i].0@ != self.entries@[j].0@);
            }
            assert forall|i: int| 0 <= i < r.entries@.len() implies {
                &&& #[trigger] r.contents@.contains_key(r.entries@[i].0@)
                &&& r.contents@[r.entries@[i].0@] == r.entries@[i].1@
            } by {
                assert(self.contents@.contains_key(self.entries@[i].0@));
            }
        }
        r
    }
}

/// First-write-wins: once an entry for `k` has been added with `v1`, a later
/// insertion of any `v2` under the same id leaves `v1` in place.
pub proof fn lemma_first_write_wins(
    m: Map<KeyIdView, KeyMaterialView>,
    k: KeyIdView,
    v1: KeyMaterialView,
    v2: KeyMaterialView,
)
    ensures
        merge_one(merge_one(m, k, v1), k, v2) == merge_one(m, k, v1),
        !m.contains_key(k) ==> merge_one(merge_one(m, k, v1), k, v2)[k] == v1,
{
}

/// Merging never removes an id nor changes the material of one already present.
pub proof fn lemma_merge_all_keeps(
    m: Map<KeyIdView, KeyMaterialView>,
    b: Seq<(KeyIdView, KeyMaterialView)>,
)
    ensures
        forall|k: KeyIdView|
            #[trigger] m.contains_key(k) ==> merge_all(m, b).contains_key(k) && merge_all(m, b)[k]
                == m[k],
        forall|i: int| 0 <= i < b.len() ==> merge_all(m, b).contains_key(#[trigger] b[i].0),
    decreases b.len(),
{
    if b.len() > 0 {
        lemma_merge_all_keeps(m, b.drop_last());
        assert forall|i: int| 0 <= i < b.len() implies merge_all(m, b).contains_key(#[trigger] b[i].0) by {
            if i < b.len() - 1 {
                assert(b.drop_last()[i] == b[i]);
            }
        }
    }
}

/// Merging entries whose ids are all present already changes nothing.
pub proof fn lemma_merge_all_present(
    m: Map<KeyIdView, KeyMaterialView>,
    b: Seq<(KeyIdView, KeyMaterialView)>,
)
    requires
        forall|i: int| 0 <= i < b.len() ==> m.contains_key(#[trigger] b[i].0),
    ensures
        merge_all(m, b) == m,
    decreases b.len(),
{
    if b.len() > 0 {
        assert forall|i: int| 0 <= i < b.drop_last().len() implies m.contains_key(
            #[trigger] b.drop_last()[i].0,
        ) by {
            assert(b.drop_last()[i] == b[i]);
        }
        lemma_merge_all_present(m, b.drop_last());
        assert(m.contains_key(b[b.len() - 1].0));
    }
}

/// Merging the same list twice has the effect of merging it once.
pub proof fn lemma_merge_all_idempotent(
    m: Map<KeyIdView, KeyMaterialView>,
    b: Seq<(KeyIdView, KeyMaterialView)>,
)
    ensures
        merge_all(merge_all(m, b), b) == merge_all(m, b),
{
    lemma_merge_all_keeps(m, b);
    lemma_merge_all_present(merge_all(m, b), b);
}

} // verus!
