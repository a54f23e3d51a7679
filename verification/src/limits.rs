//! The limits engine: admission checks, recording of expenditure, cap
//! configuration and retention, over one store.

use vstd::prelude::*;
use crate::caps::SpendCap;
use crate::decision::{
    decide, decision, summarize, summary_of, validate_check_amount, validate_limit,
    validate_record_amount, LimitCheckResult, SpendingSummary, WindowCounts, WindowSpends,
};
use crate::error::{LimitError, StoreError};
use crate::ledger::{ApiKeyId, LedgerEntry, WindowSpend};
use crate::store::{LimitStore, StoreView};
use crate::window::{Window, SECONDS_PER_HOUR};

verus! {

/// The total that an admission check reports for `window`: what was spent
/// in it where the window has a ceiling, and zero where it has none, since
/// windows without a ceiling are not aggregated.
pub open spec fn reported_spent(store: StoreView, api_key_id: ApiKeyId, window: Window, now: int)
    -> int {
    if store.cap_of(api_key_id).get(window) is Some {
        store.spent(api_key_id, window, now)
    } else {
        0
    }
}

/// The four totals that an admission check reports.
pub open spec fn reported_spends(store: StoreView, api_key_id: ApiKeyId, now: int)
    -> WindowSpends {
    WindowSpends {
        last_24h_sats: reported_spent(store, api_key_id, Window::Daily, now) as i64,
        last_7d_sats: reported_spent(store, api_key_id, Window::Weekly, now) as i64,
        last_30d_sats: reported_spent(store, api_key_id, Window::Monthly, now) as i64,
        last_365d_sats: reported_spent(store, api_key_id, Window::Annual, now) as i64,
    }
}

/// Every total that an admission check has to compute fits an `i64`.
pub open spec fn reported_spends_fit(store: StoreView, api_key_id: ApiKeyId, now: int) -> bool {
    forall|window: Window| #[trigger] reported_spent(store, api_key_id, window, now) <= i64::MAX
}

/// What an admission check at time `now` returns.
pub open spec fn check_outcome(store: StoreView, api_key_id: ApiKeyId, amount_sats: i64, now: i64)
    -> Result<LimitCheckResult, LimitError> {
    if amount_sats < 0 {
        Err(LimitError::InvalidAmount)
    } else if !reported_spends_fit(store, api_key_id, now as int) {
        Err(LimitError::Store(StoreError::AmountOutOfRange))
    } else {
        Ok(
            decision(
                store.cap_of(api_key_id),
                reported_spends(store, api_key_id, now as int),
                amount_sats,
            ),
        )
    }
}

/// The four window totals of a key, whether capped or not.
pub open spec fn actual_spends(store: StoreView, api_key_id: ApiKeyId, now: int) -> WindowSpends {
    WindowSpends {
        last_24h_sats: store.spent(api_key_id, Window::Daily, now) as i64,
        last_7d_sats: store.spent(api_key_id, Window::Weekly, now) as i64,
        last_30d_sats: store.spent(api_key_id, Window::Monthly, now) as i64,
        last_365d_sats: store.spent(api_key_id, Window::Annual, now) as i64,
    }
}

/// The four window transaction counts of a key.
pub open spec fn actual_counts(store: StoreView, api_key_id: ApiKeyId, now: int) -> WindowCounts {
    WindowCounts {
        last_24h: store.tx_count(api_key_id, Window::Daily, now) as u64,
        last_7d: store.tx_count(api_key_id, Window::Weekly, now) as u64,
        last_30d: store.tx_count(api_key_id, Window::Monthly, now) as u64,
        last_365d: store.tx_count(api_key_id, Window::Annual, now) as u64,
    }
}

/// Every window total of a key fits an `i64`.
pub open spec fn actual_spends_fit(store: StoreView, api_key_id: ApiKeyId, now: int) -> bool {
    forall|window: Window| #[trigger] store.spent(api_key_id, window, now) <= i64::MAX
}

/// What a summary taken at time `now` returns.
pub open spec fn summary_outcome(store: StoreView, api_key_id: ApiKeyId, now: i64) -> Result<
    SpendingSummary,
    LimitError,
> {
    if !actual_spends_fit(store, api_key_id, now as int) {
        Err(LimitError::Store(StoreError::AmountOutOfRange))
    } else {
        Ok(
            summary_of(
                store.cap_of(api_key_id),
                actual_spends(store, api_key_id, now as int),
                actual_counts(store, api_key_id, now as int),
            ),
        )
    }
}

/// The ledger row that recording `amount_sats` at time `now` appends.
pub open spec fn recorded_entry(
    api_key_id: ApiKeyId,
    amount_sats: i64,
    transaction_id: Option<String>,
    now: i64,
) -> LedgerEntry {
    LedgerEntry { api_key_id, amount_sats, transaction_id, created_at: now }
}

/// The instant before which a sweep at time `now` purges, for a retention
/// horizon given in hours.
pub open spec fn retention_cutoff(now: i64, retention_hours: i64) -> int {
    now - retention_hours * 3_600
}

/// The totals of the first `done` windows of `full`, in canonical order,
/// with zero for the others.
spec fn first_spends(full: WindowSpends, done: int) -> WindowSpends {
    WindowSpends {
        last_24h_sats: if done > 0 { full.last_24h_sats } else { 0 },
        last_7d_sats: if done > 1 { full.last_7d_sats } else { 0 },
        last_30d_sats: if done > 2 { full.last_30d_sats } else { 0 },
        last_365d_sats: if done > 3 { full.last_365d_sats } else { 0 },
    }
}

/// The counts of the first `done` windows of `full`, in canonical order,
/// with zero for the others.
spec fn first_counts(full: WindowCounts, done: int) -> WindowCounts {
    WindowCounts {
        last_24h: if done > 0 { full.last_24h } else { 0 },
        last_7d: if done > 1 { full.last_7d } else { 0 },
        last_30d: if done > 2 { full.last_30d } else { 0 },
        last_365d: if done > 3 { full.last_365d } else { 0 },
    }
}

/// Whether `windows` lists exactly the windows of `cap` that have a
/// ceiling, shortest first, each once.
spec fn lists_capped(cap: SpendCap, windows: Seq<Window>) -> bool {
    &&& forall|w: Window| #[trigger] windows.contains(w) <==> cap.get(w) is Some
    &&& forall|i: int, j: int|
        0 <= i < j < windows.len() ==> (#[trigger] windows[i]).rank() < (
        #[trigger] windows[j]).rank()
}

/// The rank of the window at position `j` of `windows`, or one past the
/// last rank where the list ends before `j`.
spec fn next_rank(windows: Seq<Window>, j: int) -> int {
    if 0 <= j < windows.len() {
        windows[j].rank()
    } else {
        4
    }
}

/// The rank of the window before position `j` of `windows`, or one before
/// the first rank where there is none.
spec fn previous_rank(windows: Seq<Window>, j: int) -> int {
    if 0 < j <= windows.len() {
        windows[j - 1].rank()
    } else {
        -1
    }
}

/// A window that lies between two neighbours of the list of capped
/// windows has no ceiling, so a check reports zero for it.
proof fn lemma_between_capped_reports_zero(
    store: StoreView,
    api_key_id: ApiKeyId,
    now: int,
    windows: Seq<Window>,
    j: int,
)
    requires
        lists_capped(store.cap_of(api_key_id), windows),
        0 <= j <= windows.len(),
    ensures
        forall|w: Window|
            previous_rank(windows, j) < w.rank() < next_rank(windows, j) ==> #[trigger] reported_spent(
                store,
                api_key_id,
                w,
                now,
            ) == 0,
{
    let cap = store.cap_of(api_key_id);
    assert forall|w: Window|
        previous_rank(windows, j) < w.rank() < next_rank(windows, j) implies #[trigger] reported_spent(
        store,
        api_key_id,
        w,
        now,
    ) == 0 by {
        if cap.get(w) is Some {
            assert(windows.contains(w));
            let k = choose|k: int| 0 <= k < windows.len() && windows[k] == w;
            if k < j {
                if k < j - 1 {
                    assert(windows[k].rank() < windows[j - 1].rank());
                }
            } else if k > j {
                assert(windows[j].rank() < windows[k].rank());
            }
        }
    }
}

/// The limits engine over an in-memory store.
pub struct Limits {
    store: LimitStore,
}

impl View for Limits {
    type V = StoreView;

    closed spec fn view(&self) -> StoreView {
        self.store@
    }
}

impl Limits {
    /// An engine over an empty store.
    pub fn new() -> (limits: Limits)
        ensures
            limits@ == StoreView::empty(),
            limits@.wf(),
    {
        Limits { store: LimitStore::new() }
    }

    /// An engine over `store`.
    pub fn with_store(store: LimitStore) -> (limits: Limits)
        ensures
            limits@ == store@,
    {
        Limits { store }
    }

    /// The store behind the engine.
    pub fn store(&self) -> (store: &LimitStore)
        ensures
            store@ == self@,
    {
        &self.store
    }

    /// The caps configured for `api_key_id`; all unset where the key has
    /// no cap row.
    pub fn get_all_limits(&self, api_key_id: ApiKeyId) -> (cap: SpendCap)
        ensures
            cap == self@.cap_of(api_key_id),
            cap.wf(),
            self@.wf(),
    {
        self.store.get_cap(api_key_id)
    }

    /// Amount and number of the expenditures of `api_key_id` in the
    /// `window` that ends at `now`. Fails exactly when the amount exceeds
    /// the largest `i64`.
    pub fn spend(&self, api_key_id: ApiKeyId, window: Window, now: i64) -> (res: Result<
        WindowSpend,
        StoreError,
    >)
        ensures
            self@.wf(),
            res is Ok <==> self@.spent(api_key_id, window, now as int) <= i64::MAX,
            res matches Ok(spend) ==> {
                &&& spend.total_sats == self@.spent(api_key_id, window, now as int)
                &&& spend.count == self@.tx_count(api_key_id, window, now as int)
                &&& spend.total_sats >= 0
            },
            res matches Err(e) ==> e == StoreError::AmountOutOfRange,
    {
        let earliest: i128 = now as i128 - window.duration_secs() as i128;
        self.store.aggregate_between(api_key_id, earliest, now)
    }

    /// Decides at time `now` whether `api_key_id` may spend `amount_sats`.
    ///
    /// A negative amount is refused before the store is read. Otherwise
    /// each window that has a ceiling is aggregated, and the expenditure is
    /// allowed unless one of them has less left than `amount_sats`. Nothing
    /// is reserved and nothing is changed.
    pub fn check_spending_limit(&self, api_key_id: ApiKeyId, amount_sats: i64, now: i64) -> (res:
        Result<LimitCheckResult, LimitError>)
        ensures
            res == check_outcome(self@, api_key_id, amount_sats, now),
            self@.wf(),
    {
        proof {
            use_type_invariant(&self.store);
        }
        if let Err(e) = validate_check_amount(amount_sats) {
            return Err(e);
        }
        let cap = self.get_all_limits(api_key_id);
        if cap.is_empty() {
            proof {
                crate::laws::lemma_uncapped_check(self@, api_key_id, amount_sats, now);
            }
            return Ok(LimitCheckResult::unlimited());
        }
        let windows = cap.windows_to_aggregate();
        let mut spends = WindowSpends::zero();
        let mut j: usize = 0;
        proof {
            lemma_between_capped_reports_zero(self@, api_key_id, now as int, windows@, 0);
        }
        while j < windows.len()
            invariant
                j <= windows.len(),
                amount_sats >= 0,
                lists_capped(self@.cap_of(api_key_id), windows@),
                forall|w: Window|
                    w.rank() < next_rank(windows@, j as int) ==> #[trigger] reported_spent(
                        self@,
                        api_key_id,
                        w,
                        now as int,
                    ) <= i64::MAX,
                spends == first_spends(
                    reported_spends(self@, api_key_id, now as int),
                    next_rank(windows@, j as int),
                ),
            decreases windows.len() - j,
        {
            let window = windows[j];
            proof {
                assert(windows@.contains(windows@[j as int]));
                lemma_between_capped_reports_zero(
                    self@,
                    api_key_id,
                    now as int,
                    windows@,
                    j + 1,
                );
            }
            match self.spend(api_key_id, window, now) {
                Ok(spend) => {
                    spends.set(window, spend.total_sats);
                },
                Err(e) => {
                    proof {
                        assert(reported_spent(self@, api_key_id, window, now as int) > i64::MAX);
                    }
                    return Err(LimitError::Store(e));
                },
            }
            assert(reported_spent(self@, api_key_id, window, now as int) <= i64::MAX);
            j = j + 1;
        }
        proof {
            assert forall|w: Window| #[trigger]
                reported_spent(self@, api_key_id, w, now as int) <= i64::MAX by {
                assert(w.rank() < 4);
            }
        }
        Ok(decide(&cap, &spends, amount_sats))
    }

    /// Records at time `now` that `api_key_id` spent `amount_sats`.
    ///
    /// A zero or negative amount is refused and nothing is written.
    /// Otherwise one row is appended to the ledger, whatever the caps say.
    pub fn record_spending(
        &mut self,
        api_key_id: ApiKeyId,
        amount_sats: i64,
        transaction_id: Option<String>,
        now: i64,
    ) -> (res: Result<(), LimitError>)
        ensures
            res is Ok <==> amount_sats > 0,
            res is Err ==> res == Err::<(), LimitError>(LimitError::NonPositiveAmount)
                && final(self)@ == old(self)@,
            res is Ok ==> final(self)@ == old(self)@.with_entry(
                recorded_entry(api_key_id, amount_sats, transaction_id, now),
            ),
            final(self)@.wf(),
    {
        proof {
            use_type_invariant(&self.store);
        }
        match validate_record_amount(amount_sats) {
            Err(e) => Err(e),
            Ok(()) => {
                self.store.insert_entry(
                    LedgerEntry { api_key_id, amount_sats, transaction_id, created_at: now },
                );
                Ok(())
            },
        }
    }

    /// Reports at time `now` the caps of `api_key_id` with the amount and
    /// the number of its expenditures in each of the four windows. Takes no
    /// decision.
    pub fn get_spending_summary(&self, api_key_id: ApiKeyId, now: i64) -> (res: Result<
        SpendingSummary,
        LimitError,
    >)
        ensures
            res == summary_outcome(self@, api_key_id, now),
            self@.wf(),
    {
        let cap = self.get_all_limits(api_key_id);
        let windows = Window::all();
        let mut spends = WindowSpends::zero();
        let mut counts = WindowCounts::zero();
        let mut i: usize = 0;
        while i < 4
            invariant
                i <= 4,
                windows@ == seq![Window::Daily, Window::Weekly, Window::Monthly, Window::Annual],
                forall|w: Window|
                    w.rank() < i ==> #[trigger] self@.spent(api_key_id, w, now as int) <= i64::MAX,
                spends == first_spends(actual_spends(self@, api_key_id, now as int), i as int),
                counts == first_counts(actual_counts(self@, api_key_id, now as int), i as int),
            decreases 4 - i,
        {
            let window = windows[i];
            assert(window.rank() == i);
            match self.spend(api_key_id, window, now) {
                Ok(spend) => {
                    spends.set(window, spend.total_sats);
                    counts.set(window, spend.count);
                },
                Err(e) => {
                    proof {
                        assert(self@.spent(api_key_id, window, now as int) > i64::MAX);
                    }
                    return Err(LimitError::Store(e));
                },
            }
            i = i + 1;
        }
        proof {
            assert forall|w: Window| #[trigger]
                self@.spent(api_key_id, w, now as int) <= i64::MAX by {
                assert(w.rank() < 4);
            }
        }
        Ok(summarize(&cap, &spends, &counts))
    }

    /// Sets the ceiling of `window` for `api_key_id`.
    ///
    /// A zero or negative value is refused and nothing is written.
    /// Otherwise the cap row is created if the key has none, and only the
    /// ceiling of `window` changes if it has one.
    pub fn set_limit(&mut self, api_key_id: ApiKeyId, window: Window, limit_sats: i64) -> (res:
        Result<(), LimitError>)
        ensures
            res is Ok <==> limit_sats > 0,
            res is Err ==> res == Err::<(), LimitError>(LimitError::InvalidLimit) && final(self)@
                == old(self)@,
            res is Ok ==> final(self)@ == old(self)@.with_limit(api_key_id, window, limit_sats),
            final(self)@.wf(),
    {
        proof {
            use_type_invariant(&self.store);
        }
        match validate_limit(limit_sats) {
            Err(e) => Err(e),
            Ok(()) => {
                self.store.upsert_limit(api_key_id, window, limit_sats);
                Ok(())
            },
        }
    }

    /// Clears the ceiling of `window` for `api_key_id`. The cap row is
    /// deleted as soon as no ceiling is left on it. Never fails.
    pub fn remove_limit(&mut self, api_key_id: ApiKeyId, window: Window) -> (res: Result<
        (),
        LimitError,
    >)
        ensures
            res is Ok,
            final(self)@ == old(self)@.without_limit(api_key_id, window),
            final(self)@.wf(),
    {
        self.store.clear_limit(api_key_id, window);
        Ok(())
    }

    /// Sets the 24-hour ceiling of `api_key_id`.
    pub fn set_daily_limit(&mut self, api_key_id: ApiKeyId, daily_limit_sats: i64) -> (res: Result<
        (),
        LimitError,
    >)
        ensures
            res is Ok <==> daily_limit_sats > 0,
            res is Err ==> res == Err::<(), LimitError>(LimitError::InvalidLimit) && final(self)@
                == old(self)@,
            res is Ok ==> final(self)@ == old(self)@.with_limit(
                api_key_id,
                Window::Daily,
                daily_limit_sats,
            ),
            final(self)@.wf(),
    {
        self.set_limit(api_key_id, Window::Daily, daily_limit_sats)
    }

    /// Sets the 7-day ceiling of `api_key_id`.
    pub fn set_weekly_limit(&mut self, api_key_id: ApiKeyId, weekly_limit_sats: i64) -> (res:
        Result<(), LimitError>)
        ensures
            res is Ok <==> weekly_limit_sats > 0,
            res is Err ==> res == Err::<(), LimitError>(LimitError::InvalidLimit) && final(self)@
                == old(self)@,
            res is Ok ==> final(self)@ == old(self)@.with_limit(
                api_key_id,
                Window::Weekly,
                weekly_limit_sats,
            ),
            final(self)@.wf(),
    {
        self.set_limit(api_key_id, Window::Weekly, weekly_limit_sats)
    }

    /// Sets the 30-day ceiling of `api_key_id`.
    pub fn set_monthly_limit(&mut self, api_key_id: ApiKeyId, monthly_limit_sats: i64) -> (res:
        Result<(), LimitError>)
        ensures
            res is Ok <==> monthly_limit_sats > 0,
            res is Err ==> res == Err::<(), LimitError>(LimitError::InvalidLimit) && final(self)@
                == old(self)@,
            res is Ok ==> final(self)@ == old(self)@.with_limit(
                api_key_id,
                Window::Monthly,
                monthly_limit_sats,
            ),
            final(self)@.wf(),
    {
        self.set_limit(api_key_id, Window::Monthly, monthly_limit_sats)
    }

    /// Sets the 365-day ceiling of `api_key_id`.
    pub fn set_annual_limit(&mut self, api_key_id: ApiKeyId, annual_limit_sats: i64) -> (res:
        Result<(), LimitError>)
        ensures
            res is Ok <==> annual_limit_sats > 0,
            res is Err ==> res == Err::<(), LimitError>(LimitError::InvalidLimit) && final(self)@
                == old(self)@,
            res is Ok ==> final(self)@ == old(self)@.with_limit(
                api_key_id,
                Window::Annual,
                annual_limit_sats,
            ),
            final(self)@.wf(),
    {
        self.set_limit(api_key_id, Window::Annual, annual_limit_sats)
    }

    /// Clears the 24-hour ceiling of `api_key_id`.
    pub fn remove_daily_limit(&mut self, api_key_id: ApiKeyId) -> (res: Result<(), LimitError>)
        ensures
            res is Ok,
            final(self)@ == old(self)@.without_limit(api_key_id, Window::Daily),
            final(self)@.wf(),
    {
        self.remove_limit(api_key_id, Window::Daily)
    }

    /// Clears the 7-day ceiling of `api_key_id`.
    pub fn remove_weekly_limit(&mut self, api_key_id: ApiKeyId) -> (res: Result<(), LimitError>)
        ensures
            res is Ok,
            final(self)@ == old(self)@.without_limit(api_key_id, Window::Weekly),
            final(self)@.wf(),
    {
        self.remove_limit(api_key_id, Window::Weekly)
    }

    /// Clears the 30-day ceiling of `api_key_id`.
    pub fn remove_monthly_limit(&mut self, api_key_id: ApiKeyId) -> (res: Result<(), LimitError>)
        ensures
            res is Ok,
            final(self)@ == old(self)@.without_limit(api_key_id, Window::Monthly),
            final(self)@.wf(),
    {
        self.remove_limit(api_key_id, Window::Monthly)
    }

    /// Clears the 365-day ceiling of `api_key_id`.
    pub fn remove_annual_limit(&mut self, api_key_id: ApiKeyId) -> (res: Result<(), LimitError>)
        ensures
            res is Ok,
            final(self)@ == old(self)@.without_limit(api_key_id, Window::Annual),
            final(self)@.wf(),
    {
        self.remove_limit(api_key_id, Window::Annual)
    }

    /// Deletes the cap row of `api_key_id`, whatever it holds. A key
    /// without a row stays without, and the call succeeds all the same.
    pub fn remove_all_limits(&mut self, api_key_id: ApiKeyId) -> (res: Result<(), LimitError>)
        ensures
            res is Ok,
            final(self)@ == old(self)@.without_limits(api_key_id),
            final(self)@.wf(),
    {
        self.store.delete_cap(api_key_id);
        Ok(())
    }

    /// Purges at time `now` the ledger rows that are older than
    /// `retention_hours` and returns how many rows went. Never fails.
    pub fn cleanup_old_transactions(&mut self, retention_hours: i64, now: i64) -> (res: Result<
        u64,
        LimitError,
    >)
        ensures
            res is Ok,
            final(self)@ == old(self)@.swept(retention_cutoff(now, retention_hours)),
            res matches Ok(purged) ==> purged == old(self)@.ledger.len() - final(self)@.ledger.len(),
            final(self)@.wf(),
    {
        let cutoff: i128 = now as i128 - retention_hours as i128 * SECONDS_PER_HOUR as i128;
        let purged = self.store.delete_before(cutoff);
        Ok(purged)
    }
}

} // verus!
