//! The store behind the limits engine: one sparse cap row per API key and
//! the ledger of committed expenditure.

use vstd::prelude::*;
use std::collections::HashMap;
use crate::caps::SpendCap;
use crate::error::StoreError;
use crate::ledger::{
    aggregate, all_positive, count_between, discard_before, retained, total_between, ApiKeyId,
    LedgerEntry, WindowSpend,
};
use crate::window::Window;

verus! {

broadcast use vstd::std_specs::hash::group_hash_axioms;

/// What a store holds, as mathematics: the cap rows by key and the ledger
/// rows in the order in which they were committed.
pub struct StoreView {
    pub caps: Map<ApiKeyId, SpendCap>,
    pub ledger: Seq<LedgerEntry>,
}

impl StoreView {
    /// A store with no cap row and no ledger row.
    pub open spec fn empty() -> StoreView {
        StoreView { caps: Map::empty(), ledger: Seq::empty() }
    }

    /// The invariant of every store: a cap row exists only while at least
    /// one of its ceilings is set, every ceiling is positive, and every
    /// ledger row carries a positive amount.
    pub open spec fn wf(self) -> bool {
        &&& forall|id: ApiKeyId| #[trigger]
            self.caps.contains_key(id) ==> self.caps[id].wf() && !self.caps[id].is_unset()
        &&& all_positive(self.ledger)
    }

    /// Whether `api_key_id` has a cap row.
    pub open spec fn has_row(self, api_key_id: ApiKeyId) -> bool {
        self.caps.contains_key(api_key_id)
    }

    /// The caps of `api_key_id`; a key without a row has none.
    pub open spec fn cap_of(self, api_key_id: ApiKeyId) -> SpendCap {
        if self.caps.contains_key(api_key_id) {
            self.caps[api_key_id]
        } else {
            SpendCap::unset()
        }
    }

    /// The store after the ceiling of `window` was set for `api_key_id`:
    /// the row is created if absent, and its other ceilings are kept.
    pub open spec fn with_limit(self, api_key_id: ApiKeyId, window: Window, limit_sats: i64)
        -> StoreView {
        StoreView {
            caps: self.caps.insert(
                api_key_id,
                self.cap_of(api_key_id).put(window, Some(limit_sats)),
            ),
            ..self
        }
    }

    /// The store after the ceiling of `window` was cleared for
    /// `api_key_id`: the row goes when its last ceiling goes.
    pub open spec fn without_limit(self, api_key_id: ApiKeyId, window: Window) -> StoreView {
        let cleared = self.cap_of(api_key_id).put(window, None);
        StoreView {
            caps: if cleared.is_unset() {
                self.caps.remove(api_key_id)
            } else {
                self.caps.insert(api_key_id, cleared)
            },
            ..self
        }
    }

    /// The store after the cap row of `api_key_id` was deleted.
    pub open spec fn without_limits(self, api_key_id: ApiKeyId) -> StoreView {
        StoreView { caps: self.caps.remove(api_key_id), ..self }
    }

    /// The store after `entry` was appended to the ledger.
    pub open spec fn with_entry(self, entry: LedgerEntry) -> StoreView {
        StoreView { ledger: self.ledger.push(entry), ..self }
    }

    /// The store after every ledger row committed before `cutoff` was
    /// purged.
    pub open spec fn swept(self, cutoff: int) -> StoreView {
        StoreView { ledger: retained(self.ledger, cutoff), ..self }
    }

    /// Amount that `api_key_id` spent in the `window` that ends at `now`.
    pub open spec fn spent(self, api_key_id: ApiKeyId, window: Window, now: int) -> int {
        total_between(self.ledger, api_key_id, now - window.secs(), now)
    }

    /// Number of ledger rows of `api_key_id` in the `window` that ends at
    /// `now`.
    pub open spec fn tx_count(self, api_key_id: ApiKeyId, window: Window, now: int) -> nat {
        count_between(self.ledger, api_key_id, now - window.secs(), now)
    }
}

/// An in-memory store of cap rows and ledger rows.
pub struct LimitStore {
    caps: HashMap<ApiKeyId, SpendCap>,
    ledger: Vec<LedgerEntry>,
}

impl View for LimitStore {
    type V = StoreView;

    closed spec fn view(&self) -> StoreView {
        StoreView { caps: self.caps@, ledger: self.ledger@ }
    }
}

impl LimitStore {
    /// Holds of every store at all times.
    #[verifier::type_invariant]
    pub open spec fn inv(self) -> bool {
        self@.wf()
    }

    /// Moves the cap rows out, leaving none behind.
    fn take_caps(&mut self) -> (caps: HashMap<ApiKeyId, SpendCap>)
        ensures
            caps@ == old(self)@.caps,
            final(self)@ == (StoreView { caps: Map::empty(), ledger: old(self)@.ledger }),
    {
        proof {
            use_type_invariant(&*self);
        }
        let mut caps: HashMap<ApiKeyId, SpendCap> = HashMap::new();
        std::mem::swap(&mut self.caps, &mut caps);
        caps
    }

    /// Moves the ledger rows out, leaving none behind.
    fn take_ledger(&mut self) -> (ledger: Vec<LedgerEntry>)
        ensures
            ledger@ == old(self)@.ledger,
            final(self)@ == (StoreView { caps: old(self)@.caps, ledger: Seq::empty() }),
    {
        proof {
            use_type_invariant(&*self);
        }
        let mut ledger: Vec<LedgerEntry> = Vec::new();
        std::mem::swap(&mut self.ledger, &mut ledger);
        ledger
    }

    /// A store with no cap row and no ledger row.
    pub fn new() -> (store: LimitStore)
        ensures
            store@ == StoreView::empty(),
            store@.wf(),
    {
        LimitStore { caps: HashMap::new(), ledger: Vec::new() }
    }

    /// The caps of `api_key_id`; all unset where the key has no row.
    pub fn get_cap(&self, api_key_id: ApiKeyId) -> (cap: SpendCap)
        ensures
            cap == self@.cap_of(api_key_id),
            cap.wf(),
            cap.is_unset() <==> !self@.has_row(api_key_id),
            self@.wf(),
    {
        proof {
            use_type_invariant(self);
        }
        match self.caps.get(&api_key_id) {
            Some(cap) => *cap,
            None => SpendCap::none(),
        }
    }

    /// Whether `api_key_id` has a cap row.
    pub fn has_cap_row(&self, api_key_id: ApiKeyId) -> (present: bool)
        ensures
            present == self@.has_row(api_key_id),
    {
        self.caps.contains_key(&api_key_id)
    }

    /// Sets the ceiling of `window` for `api_key_id`, creating the row if
    /// the key has none and keeping its other ceilings if it has one.
    pub fn upsert_limit(&mut self, api_key_id: ApiKeyId, window: Window, limit_sats: i64)
        requires
            limit_sats > 0,
        ensures
            final(self)@ == old(self)@.with_limit(api_key_id, window, limit_sats),
            final(self)@.wf(),
    {
        proof {
            use_type_invariant(&*self);
        }
        let cap = self.get_cap(api_key_id).with_limit(window, limit_sats);
        let mut caps = self.take_caps();
        caps.insert(api_key_id, cap);
        self.caps = caps;
    }

    /// Clears the ceiling of `window` for `api_key_id`. The row is deleted
    /// when no ceiling is left on it; a key without a row stays without.
    pub fn clear_limit(&mut self, api_key_id: ApiKeyId, window: Window)
        ensures
            final(self)@ == old(self)@.without_limit(api_key_id, window),
            final(self)@.wf(),
    {
        proof {
            use_type_invariant(&*self);
        }
        let cap = self.get_cap(api_key_id).without_limit(window);
        let mut caps = self.take_caps();
        if cap.is_empty() {
            caps.remove(&api_key_id);
        } else {
            caps.insert(api_key_id, cap);
        }
        self.caps = caps;
    }

    /// Deletes the cap row of `api_key_id`, if there is one.
    pub fn delete_cap(&mut self, api_key_id: ApiKeyId)
        ensures
            final(self)@ == old(self)@.without_limits(api_key_id),
            final(self)@.wf(),
    {
        proof {
            use_type_invariant(&*self);
        }
        let mut caps = self.take_caps();
        caps.remove(&api_key_id);
        self.caps = caps;
    }

    /// Appends `entry` to the ledger.
    pub fn insert_entry(&mut self, entry: LedgerEntry)
        requires
            entry.amount_sats > 0,
        ensures
            final(self)@ == old(self)@.with_entry(entry),
            final(self)@.wf(),
    {
        proof {
            use_type_invariant(&*self);
        }
        let mut ledger = self.take_ledger();
        ledger.push(entry);
        self.ledger = ledger;
    }

    /// Sum and number of the ledger rows of `api_key_id` committed between
    /// `earliest` and `latest`, both included. Fails exactly when the sum
    /// exceeds the largest `i64`.
    pub fn aggregate_between(&self, api_key_id: ApiKeyId, earliest: i128, latest: i64) -> (res:
        Result<WindowSpend, StoreError>)
        ensures
            self@.wf(),
            res is Ok <==> total_between(self@.ledger, api_key_id, earliest as int, latest as int)
                <= i64::MAX,
            res matches Ok(spend) ==> {
                &&& spend.total_sats == total_between(
                    self@.ledger,
                    api_key_id,
                    earliest as int,
                    latest as int,
                )
                &&& spend.count == count_between(
                    self@.ledger,
                    api_key_id,
                    earliest as int,
                    latest as int,
                )
                &&& spend.total_sats >= 0
            },
            res matches Err(e) ==> e == StoreError::AmountOutOfRange,
    {
        proof {
            use_type_invariant(self);
            crate::ledger::lemma_total_nonnegative(
                self@.ledger,
                api_key_id,
                earliest as int,
                latest as int,
            );
        }
        aggregate(&self.ledger, api_key_id, earliest, latest)
    }

    /// Purges every ledger row committed before `cutoff` and returns how
    /// many rows went.
    pub fn delete_before(&mut self, cutoff: i128) -> (purged: u64)
        ensures
            final(self)@ == old(self)@.swept(cutoff as int),
            purged == old(self)@.ledger.len() - final(self)@.ledger.len(),
            final(self)@.wf(),
    {
        proof {
            use_type_invariant(&*self);
            crate::ledger::lemma_retained_positive(self@.ledger, cutoff as int);
        }
        let mut ledger = self.take_ledger();
        let purged = discard_before(&mut ledger, cutoff);
        self.ledger = ledger;
        purged
    }

    /// Number of ledger rows.
    pub fn ledger_len(&self) -> (rows: usize)
        ensures
            rows == self@.ledger.len(),
    {
        self.ledger.len()
    }

    /// Number of cap rows.
    pub fn cap_rows(&self) -> (rows: usize)
        ensures
            rows == self@.caps.len(),
    {
        self.caps.len()
    }
}

} // verus!
