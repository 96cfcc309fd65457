//! Decisions of the background key refresher. Each cycle fetches the key
//! set of every configured provider in turn, merges what arrives into the
//! key store, waits a fixed backoff after a failed fetch, and rests for the
//! refresh interval once all providers have been visited. The caller
//! performs each action, merges fetched keys into the store one key at a
//! time with `KeyStore::merge_insert`, and reports the event it led to.

use vstd::prelude::*;
use crate::keys::{
    lemma_merge_all_keeps, lemma_merge_all_present, merge_all, KeyIdView, KeyMaterialView,
};

verus! {

/// Seconds to wait after a provider's fetch failed, before the next provider.
pub const FETCH_BACKOFF_SECS: u64 = 30;

/// Seconds between two refresh cycles unless configured otherwise.
pub const DEFAULT_REFRESH_INTERVAL_SECS: u64 = 3600;

/// What the refresher asks its caller to do next.
#[derive(Debug, Clone, Copy, PartialEq, Eq, Structural)]
pub enum RefreshAction {
    /// Fetch the key set of the provider at this index.
    Fetch(usize),
    /// Wait this many seconds after a failed fetch.
    Backoff(u64),
    /// Rest this many seconds before the next cycle.
    Sleep(u64),
}

/// What came of the last action.
#[derive(Debug, Clone, Copy, PartialEq, Eq, Structural)]
pub enum RefreshEvent {
    /// The fetch succeeded and its keys were merged into the store.
    Fetched,
    /// The fetch failed.
    FetchFailed,
    /// The backoff wait is over.
    BackoffDone,
    /// The rest between cycles is over.
    IntervalDone,
}

/// Progress through a cycle over `provider_count` providers.
#[derive(Debug, Clone, Copy, PartialEq, Eq, Structural)]
pub struct Refresher {
    pub provider_count: usize,
    pub interval_secs: u64,
    /// Index of the provider being fetched.
    pub cursor: usize,
}

/// Moving on from the current provider: to the next one, or to rest when
/// it was the last.
pub open spec fn advance(r: Refresher) -> (Refresher, RefreshAction) {
    if r.cursor + 1 < r.provider_count {
        (Refresher { cursor: (r.cursor + 1) as usize, ..r }, RefreshAction::Fetch((r.cursor + 1) as usize))
    } else {
        (Refresher { cursor: 0, ..r }, RefreshAction::Sleep(r.interval_secs))
    }
}

/// Starting a cycle: fetch the first provider, or rest again when there is none.
pub open spec fn start_cycle(r: Refresher) -> (Refresher, RefreshAction) {
    if r.provider_count > 0 {
        (Refresher { cursor: 0, ..r }, RefreshAction::Fetch(0))
    } else {
        (Refresher { cursor: 0, ..r }, RefreshAction::Sleep(r.interval_secs))
    }
}

/// The key store after one cycle, given each provider's response in order
/// (`None` for a failed fetch).
pub open spec fn cycle_effect(
    m: Map<KeyIdView, KeyMaterialView>,
    responses: Seq<Option<Seq<(KeyIdView, KeyMaterialView)>>>,
) -> Map<KeyIdView, KeyMaterialView>
    decreases responses.len(),
{
    if responses.len() == 0 {
        m
    } else {
        let before = cycle_effect(m, responses.drop_last());
        match responses.last() {
            Some(b) => merge_all(before, b),
            None => before,
        }
    }
}

impl Refresher {
    pub open spec fn wf(&self) -> bool {
        self.cursor == 0 || self.cursor < self.provider_count
    }

    /// A refresher over `provider_count` providers, before its first cycle.
    pub fn new(provider_count: usize, interval_secs: u64) -> (r: Refresher)
        ensures
            r.wf(),
            r == (Refresher { provider_count, interval_secs, cursor: 0 }),
    {
        Refresher { provider_count, interval_secs, cursor: 0 }
    }

    /// Begins a cycle and says what to do first.
    pub fn start(&mut self) -> (a: RefreshAction)
        ensures
            final(self).wf(),
            (*final(self), a) == start_cycle(*old(self)),
    {
        self.cursor = 0;
        if self.provider_count > 0 {
            RefreshAction::Fetch(0)
        } else {
            RefreshAction::Sleep(self.interval_secs)
        }
    }

    fn advance(&mut self) -> (a: RefreshAction)
        requires
            old(self).wf(),
        ensures
            final(self).wf(),
            (*final(self), a) == advance(*old(self)),
    {
        if self.cursor < self.provider_count && self.cursor + 1 < self.provider_count {
            self.cursor = self.cursor + 1;
            RefreshAction::Fetch(self.cursor)
        } else {
            self.cursor = 0;
            RefreshAction::Sleep(self.interval_secs)
        }
    }

    /// Takes in what came of the last action and says what to do next: a
    /// failed fetch is followed by the fixed backoff and then by the next
    /// provider; after the last provider comes the rest between cycles.
    pub fn step(&mut self, event: RefreshEvent) -> (a: RefreshAction)
        requires
            old(self).wf(),
        ensures
            final(self).wf(),
            match event {
                RefreshEvent::Fetched | RefreshEvent::BackoffDone => (*final(self), a) == advance(
                    *old(self),
                ),
                RefreshEvent::FetchFailed => {
                    &&& *final(self) == *old(self)
                    &&& a == RefreshAction::Backoff(FETCH_BACKOFF_SECS)
                },
                RefreshEvent::IntervalDone => (*final(self), a) == start_cycle(*old(self)),
            },
    {
        match event {
            RefreshEvent::Fetched => self.advance(),
            RefreshEvent::FetchFailed => RefreshAction::Backoff(FETCH_BACKOFF_SECS),
            RefreshEvent::BackoffDone => self.advance(),
            RefreshEvent::IntervalDone => self.start(),
        }
    }
}

/// Every key of every successful response is present after a cycle, and
/// keys present before keep their material.
pub proof fn lemma_cycle_keeps(
    m: Map<KeyIdView, KeyMaterialView>,
    rs: Seq<Option<Seq<(KeyIdView, KeyMaterialView)>>>,
)
    ensures
        forall|k: KeyIdView|
            #[trigger] m.contains_key(k) ==> cycle_effect(m, rs).contains_key(k) && cycle_effect(
                m,
                rs,
            )[k] == m[k],
        forall|i: int, j: int|
            0 <= i < rs.len() && (#[trigger] rs[i]).is_some() && 0 <= j < rs[i].unwrap().len()
                ==> cycle_effect(m, rs).contains_key(#[trigger] rs[i].unwrap()[j].0),
    decreases rs.len(),
{
    if rs.len() > 0 {
        let prev = rs.drop_last();
        lemma_cycle_keeps(m, prev);
        let before = cycle_effect(m, prev);
        if let Some(b) = rs.last() {
            lemma_merge_all_keeps(before, b);
        }
        assert forall|i: int, j: int|
            0 <= i < rs.len() && (#[trigger] rs[i]).is_some() && 0 <= j < rs[i].unwrap().len()
                implies cycle_effect(m, rs).contains_key(#[trigger] rs[i].unwrap()[j].0) by {
            if i < rs.len() - 1 {
                assert(prev[i] == rs[i]);
                assert(before.contains_key(prev[i].unwrap()[j].0));
            }
        }
    }
}

/// A cycle whose responses hold only keys already present changes nothing.
pub proof fn lemma_cycle_present(
    m: Map<KeyIdView, KeyMaterialView>,
    rs: Seq<Option<Seq<(KeyIdView, KeyMaterialView)>>>,
)
    requires
        forall|i: int, j: int|
            0 <= i < rs.len() && (#[trigger] rs[i]).is_some() && 0 <= j < rs[i].unwrap().len()
                ==> m.contains_key(#[trigger] rs[i].unwrap()[j].0),
    ensures
        cycle_effect(m, rs) == m,
    decreases rs.len(),
{
    if rs.len() > 0 {
        let prev = rs.drop_last();
        assert forall|i: int, j: int|
            0 <= i < prev.len() && (#[trigger] prev[i]).is_some() && 0 <= j < prev[i].unwrap().len()
                implies m.contains_key(#[trigger] prev[i].unwrap()[j].0) by {
            assert(prev[i] == rs[i]);
        }
        lemma_cycle_present(m, prev);
        if let Some(b) = rs.last() {
            assert(rs[rs.len() - 1] == Some(b));
            assert forall|j: int| 0 <= j < b.len() implies m.contains_key(#[trigger] b[j].0) by {
                assert(rs[rs.len() - 1].unwrap()[j] == b[j]);
            }
            lemma_merge_all_present(m, b);
        }
    }
}

/// Running a refresh cycle again on unchanged provider responses leaves
/// the key store as the first run left it.
pub proof fn lemma_refresh_idempotent(
    m: Map<KeyIdView, KeyMaterialView>,
    rs: Seq<Option<Seq<(KeyIdView, KeyMaterialView)>>>,
)
    ensures
        cycle_effect(cycle_effect(m, rs), rs) == cycle_effect(m, rs),
{
    lemma_cycle_keeps(m, rs);
    lemma_cycle_present(cycle_effect(m, rs), rs);
}

} // verus!
