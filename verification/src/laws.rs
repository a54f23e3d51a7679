//! What holds of the engine across calls, stated over the store's view.

use vstd::prelude::*;
use crate::caps::SpendCap;
use crate::decision::{decision, fits, LimitCheckResult, WindowSpends};
use crate::error::LimitError;
use crate::ledger::{
    lemma_push_adds, lemma_retained_keeps_totals, lemma_retained_positive,
    lemma_total_nonnegative, lemma_wider_interval, ApiKeyId, LedgerEntry,
};
use crate::limits::{
    actual_spends, check_outcome, recorded_entry, reported_spends, reported_spends_fit,
    reported_spent, retention_cutoff, summary_outcome,
};
use crate::store::StoreView;
use crate::window::{Window, ANNUAL_WINDOW_SECS};

verus! {

/// A key without any cap is always allowed to spend a non-negative
/// amount: the check succeeds, allows, and reports no cap and zero for
/// every window, whatever the ledger holds.
pub proof fn lemma_uncapped_check(store: StoreView, api_key_id: ApiKeyId, amount_sats: i64, now: i64)
    requires
        store.cap_of(api_key_id).is_unset(),
        amount_sats >= 0,
    ensures
        check_outcome(store, api_key_id, amount_sats, now) == Ok::<LimitCheckResult, LimitError>(
            LimitCheckResult::unlimited_spec(),
        ),
        LimitCheckResult::unlimited_spec().allowed,
        LimitCheckResult::unlimited_spec().cap() == SpendCap::unset(),
        LimitCheckResult::unlimited_spec().spends() == WindowSpends::nothing(),
{
    assert(reported_spends_fit(store, api_key_id, now as int));
    assert(reported_spends(store, api_key_id, now as int) == WindowSpends::nothing());
    assert(decision(SpendCap::unset(), WindowSpends::nothing(), amount_sats).allowed);
    assert(decision(SpendCap::unset(), WindowSpends::nothing(), 0).allowed);
}

/// For a key without any cap that has spent nothing in any window, the
/// totals that the check reports are the key's actual window totals.
pub proof fn lemma_uncapped_check_reports_actual(
    store: StoreView,
    api_key_id: ApiKeyId,
    amount_sats: i64,
    now: i64,
)
    requires
        store.cap_of(api_key_id).is_unset(),
        amount_sats >= 0,
        forall|window: Window| #[trigger] store.spent(api_key_id, window, now as int) == 0,
    ensures
        check_outcome(store, api_key_id, amount_sats, now) matches Ok(result) && result.allowed
            && result.spends() == actual_spends(store, api_key_id, now as int),
{
    lemma_uncapped_check(store, api_key_id, amount_sats, now);
    assert(store.spent(api_key_id, Window::Daily, now as int) == 0);
    assert(store.spent(api_key_id, Window::Weekly, now as int) == 0);
    assert(store.spent(api_key_id, Window::Monthly, now as int) == 0);
    assert(store.spent(api_key_id, Window::Annual, now as int) == 0);
}

/// A successful check allows exactly when, for every window with a
/// ceiling, the ceiling less the amount spent in that window is at least
/// the amount asked for; and it reports the key's caps as they are.
pub proof fn lemma_check_allows_iff_headroom(
    store: StoreView,
    api_key_id: ApiKeyId,
    amount_sats: i64,
    now: i64,
)
    requires
        store.wf(),
        check_outcome(store, api_key_id, amount_sats, now) is Ok,
    ensures
        ({
            let result = check_outcome(store, api_key_id, amount_sats, now)->Ok_0;
            &&& result.cap() == store.cap_of(api_key_id)
            &&& result.allowed <==> forall|window: Window|
                (#[trigger] store.cap_of(api_key_id).get(window)) matches Some(limit) ==> limit
                    - store.spent(api_key_id, window, now as int) >= amount_sats
        }),
{
    let cap = store.cap_of(api_key_id);
    let spends = reported_spends(store, api_key_id, now as int);
    let result = check_outcome(store, api_key_id, amount_sats, now)->Ok_0;
    assert forall|window: Window| #[trigger] cap.get(window) is Some implies spends.get(window)
        == store.spent(api_key_id, window, now as int) by {
        lemma_total_nonnegative(store.ledger, api_key_id, now - window.secs(), now as int);
        assert(reported_spent(store, api_key_id, window, now as int) <= i64::MAX);
    }
    if result.allowed {
        assert forall|window: Window| (#[trigger] cap.get(window)) is Some implies cap.get(
            window,
        ).unwrap() - store.spent(api_key_id, window, now as int) >= amount_sats by {
            assert(fits(cap.get(window), spends.get(window), amount_sats));
        }
    } else {
        let window = choose|window: Window|
            !fits(#[trigger] cap.get(window), spends.get(window), amount_sats);
        assert(cap.get(window) is Some);
    }
}

/// With one ceiling set and nothing spent under it, an amount is allowed
/// exactly when it does not exceed the ceiling.
pub proof fn lemma_fresh_cap_boundary(
    store: StoreView,
    api_key_id: ApiKeyId,
    window: Window,
    limit_sats: i64,
    amount_sats: i64,
    now: i64,
)
    requires
        store.wf(),
        store.cap_of(api_key_id) == SpendCap::unset().put(window, Some(limit_sats)),
        store.spent(api_key_id, window, now as int) == 0,
        amount_sats >= 0,
    ensures
        check_outcome(store, api_key_id, amount_sats, now) matches Ok(result) && (result.allowed
            <==> amount_sats <= limit_sats),
{
    let cap = store.cap_of(api_key_id);
    assert forall|w: Window| #[trigger]
        reported_spent(store, api_key_id, w, now as int) <= i64::MAX by {
        if w != window {
            assert(cap.get(w) is None);
        }
    }
    lemma_check_allows_iff_headroom(store, api_key_id, amount_sats, now);
    let result = check_outcome(store, api_key_id, amount_sats, now)->Ok_0;
    if amount_sats <= limit_sats {
        assert forall|w: Window| (#[trigger] cap.get(w)) is Some implies cap.get(w).unwrap()
            - store.spent(api_key_id, w, now as int) >= amount_sats by {
            if w != window {
                assert(cap.get(w) is None);
            }
        }
    } else {
        assert(cap.get(window) == Some(limit_sats));
    }
}

/// Every operation of the engine keeps the store's invariant: cap rows
/// exist only while a ceiling is set on them, ceilings and ledger amounts
/// are positive.
pub proof fn lemma_operations_keep_invariant(
    store: StoreView,
    api_key_id: ApiKeyId,
    window: Window,
    limit_sats: i64,
    entry: LedgerEntry,
    cutoff: int,
)
    requires
        store.wf(),
    ensures
        StoreView::empty().wf(),
        limit_sats > 0 ==> store.with_limit(api_key_id, window, limit_sats).wf(),
        store.without_limit(api_key_id, window).wf(),
        store.without_limits(api_key_id).wf(),
        entry.amount_sats > 0 ==> store.with_entry(entry).wf(),
        store.swept(cutoff).wf(),
{
    lemma_retained_positive(store.ledger, cutoff);
    lemma_push_adds(store.ledger, entry, api_key_id, 0, 0);
}

/// Setting one ceiling changes that ceiling of that key and nothing else:
/// the key's other three ceilings, every other key's caps and the ledger
/// stay as they were.
pub proof fn lemma_set_limit_frame(
    store: StoreView,
    api_key_id: ApiKeyId,
    window: Window,
    limit_sats: i64,
    other_key: ApiKeyId,
    other_window: Window,
)
    ensures
        store.with_limit(api_key_id, window, limit_sats).cap_of(api_key_id).get(window) == Some(
            limit_sats,
        ),
        store.with_limit(api_key_id, window, limit_sats).has_row(api_key_id),
        other_window != window ==> store.with_limit(api_key_id, window, limit_sats).cap_of(
            api_key_id,
        ).get(other_window) == store.cap_of(api_key_id).get(other_window),
        other_key != api_key_id ==> store.with_limit(api_key_id, window, limit_sats).cap_of(
            other_key,
        ) == store.cap_of(other_key),
        store.with_limit(api_key_id, window, limit_sats).ledger == store.ledger,
{
}

/// Clearing one ceiling clears that ceiling of that key and nothing else,
/// and the key keeps a cap row exactly when another ceiling is left.
pub proof fn lemma_remove_limit_frame(
    store: StoreView,
    api_key_id: ApiKeyId,
    window: Window,
    other_key: ApiKeyId,
    other_window: Window,
)
    requires
        store.wf(),
    ensures
        store.without_limit(api_key_id, window).cap_of(api_key_id).get(window) is None,
        other_window != window ==> store.without_limit(api_key_id, window).cap_of(api_key_id).get(
            other_window,
        ) == store.cap_of(api_key_id).get(other_window),
        store.without_limit(api_key_id, window).has_row(api_key_id) <==> exists|w: Window|
            w != window && (#[trigger] store.cap_of(api_key_id).get(w)) is Some,
        other_key != api_key_id ==> store.without_limit(api_key_id, window).cap_of(other_key)
            == store.cap_of(other_key),
        store.without_limit(api_key_id, window).ledger == store.ledger,
{
    let cap = store.cap_of(api_key_id);
    let cleared = cap.put(window, None);
    if cleared.is_unset() {
        if exists|w: Window| w != window && (#[trigger] cap.get(w)) is Some {
            let w = choose|w: Window| w != window && (#[trigger] cap.get(w)) is Some;
            assert(cleared.get(w) == cap.get(w));
        }
    } else {
        let w = if cleared.daily_limit_sats is Some {
            Window::Daily
        } else if cleared.weekly_limit_sats is Some {
            Window::Weekly
        } else if cleared.monthly_limit_sats is Some {
            Window::Monthly
        } else {
            Window::Annual
        };
        assert(cleared.get(w) is Some);
        assert(w != window && cap.get(w) is Some);
    }
}

/// Clearing the only ceiling of a key leaves the key with no ceiling and
/// without a cap row.
pub proof fn lemma_remove_last_limit(store: StoreView, api_key_id: ApiKeyId, window: Window)
    requires
        store.wf(),
        forall|w: Window| w != window ==> (#[trigger] store.cap_of(api_key_id).get(w)) is None,
    ensures
        store.without_limit(api_key_id, window).cap_of(api_key_id).is_unset(),
        !store.without_limit(api_key_id, window).has_row(api_key_id),
{
    lemma_remove_limit_frame(store, api_key_id, window, api_key_id, window);
}

/// Deleting a key's cap row leaves the key without caps and without a
/// row, touches no other key, and deleting again changes nothing.
pub proof fn lemma_remove_all_limits_idempotent(
    store: StoreView,
    api_key_id: ApiKeyId,
    other_key: ApiKeyId,
)
    ensures
        store.without_limits(api_key_id).cap_of(api_key_id).is_unset(),
        !store.without_limits(api_key_id).has_row(api_key_id),
        store.without_limits(api_key_id).without_limits(api_key_id) == store.without_limits(
            api_key_id,
        ),
        other_key != api_key_id ==> store.without_limits(api_key_id).cap_of(other_key)
            == store.cap_of(other_key),
        store.without_limits(api_key_id).ledger == store.ledger,
{
    assert(store.caps.remove(api_key_id).remove(api_key_id) =~= store.caps.remove(api_key_id));
}

/// A ledger row counts towards a window of its own key exactly when it
/// was committed no longer ago than the window is long, and not after
/// `now`; it counts towards no window of another key.
pub proof fn lemma_entry_counts_in_window(
    store: StoreView,
    entry: LedgerEntry,
    api_key_id: ApiKeyId,
    window: Window,
    now: int,
)
    ensures
        store.with_entry(entry).spent(api_key_id, window, now) == store.spent(
            api_key_id,
            window,
            now,
        ) + if entry.api_key_id == api_key_id && now - window.secs() <= entry.created_at <= now {
            entry.amount_sats as int
        } else {
            0
        },
        store.with_entry(entry).tx_count(api_key_id, window, now) == store.tx_count(
            api_key_id,
            window,
            now,
        ) + if entry.api_key_id == api_key_id && now - window.secs() <= entry.created_at <= now {
            1nat
        } else {
            0nat
        },
        store.with_entry(entry).caps == store.caps,
{
    lemma_push_adds(store.ledger, entry, api_key_id, now - window.secs(), now);
}

/// Recording never lowers what any later aggregation reports: for every
/// key, window and time, the total and the count after a row was recorded
/// are at least what they were before.
pub proof fn lemma_record_monotonic(
    store: StoreView,
    entry: LedgerEntry,
    api_key_id: ApiKeyId,
    window: Window,
    now: int,
)
    requires
        entry.amount_sats > 0,
    ensures
        store.with_entry(entry).spent(api_key_id, window, now) >= store.spent(
            api_key_id,
            window,
            now,
        ),
        store.with_entry(entry).tx_count(api_key_id, window, now) >= store.tx_count(
            api_key_id,
            window,
            now,
        ),
{
    lemma_entry_counts_in_window(store, entry, api_key_id, window, now);
}

/// A longer window reports at least as much as a shorter one that ends at
/// the same time.
pub proof fn lemma_windows_nested(
    store: StoreView,
    api_key_id: ApiKeyId,
    shorter: Window,
    longer: Window,
    now: int,
)
    requires
        store.wf(),
        shorter.rank() <= longer.rank(),
    ensures
        0 <= store.spent(api_key_id, shorter, now) <= store.spent(api_key_id, longer, now),
        store.tx_count(api_key_id, shorter, now) <= store.tx_count(api_key_id, longer, now),
        store.tx_count(api_key_id, longer, now) <= store.spent(api_key_id, longer, now),
{
    lemma_total_nonnegative(store.ledger, api_key_id, now - shorter.secs(), now);
    lemma_total_nonnegative(store.ledger, api_key_id, now - longer.secs(), now);
    lemma_wider_interval(
        store.ledger,
        api_key_id,
        now - shorter.secs(),
        now,
        now - longer.secs(),
        now,
    );
}

/// A summary taken right after a recording, and up to 24 hours later,
/// shows at least the recorded amount and at least one transaction in
/// every window.
pub proof fn lemma_summary_after_record(
    store: StoreView,
    api_key_id: ApiKeyId,
    amount_sats: i64,
    transaction_id: Option<String>,
    recorded_at: i64,
    now: i64,
)
    requires
        store.wf(),
        amount_sats > 0,
        recorded_at <= now <= recorded_at + 86_400,
        summary_outcome(
            store.with_entry(recorded_entry(api_key_id, amount_sats, transaction_id, recorded_at)),
            api_key_id,
            now,
        ) is Ok,
    ensures
        ({
            let after = store.with_entry(
                recorded_entry(api_key_id, amount_sats, transaction_id, recorded_at),
            );
            let summary = summary_outcome(after, api_key_id, now)->Ok_0;
            &&& summary.spent_last_24h_sats >= amount_sats
            &&& summary.spent_last_7d_sats >= amount_sats
            &&& summary.spent_last_30d_sats >= amount_sats
            &&& summary.spent_last_365d_sats >= amount_sats
            &&& summary.tx_count_last_24h >= 1
            &&& summary.tx_count_last_7d >= 1
            &&& summary.tx_count_last_30d >= 1
            &&& summary.tx_count_last_365d >= 1
            &&& summary.cap() == store.cap_of(api_key_id)
        }),
{
    let entry = recorded_entry(api_key_id, amount_sats, transaction_id, recorded_at);
    let after = store.with_entry(entry);
    assert forall|window: Window|
        #![trigger after.spent(api_key_id, window, now as int)]
        #![trigger after.tx_count(api_key_id, window, now as int)]
        amount_sats <= after.spent(api_key_id, window, now as int) <= i64::MAX && 1
            <= after.tx_count(api_key_id, window, now as int) <= i64::MAX by {
        lemma_entry_counts_in_window(store, entry, api_key_id, window, now as int);
        lemma_total_nonnegative(store.ledger, api_key_id, now - window.secs(), now as int);
        lemma_push_adds(store.ledger, entry, api_key_id, now - window.secs(), now as int);
        lemma_total_nonnegative(after.ledger, api_key_id, now - window.secs(), now as int);
        assert(after.spent(api_key_id, window, now as int) <= i64::MAX);
    }
    assert(after.spent(api_key_id, Window::Daily, now as int) >= amount_sats);
    assert(after.spent(api_key_id, Window::Weekly, now as int) >= amount_sats);
    assert(after.spent(api_key_id, Window::Monthly, now as int) >= amount_sats);
    assert(after.spent(api_key_id, Window::Annual, now as int) >= amount_sats);
    assert(after.tx_count(api_key_id, Window::Daily, now as int) >= 1);
    assert(after.tx_count(api_key_id, Window::Weekly, now as int) >= 1);
    assert(after.tx_count(api_key_id, Window::Monthly, now as int) >= 1);
    assert(after.tx_count(api_key_id, Window::Annual, now as int) >= 1);
}

/// A sweep whose retention horizon is at least the annual window changes
/// nothing that any window reports at the time of the sweep or later, and
/// touches no cap.
pub proof fn lemma_sweep_keeps_windows(
    store: StoreView,
    retention_hours: i64,
    swept_at: i64,
    api_key_id: ApiKeyId,
    window: Window,
    now: int,
)
    requires
        retention_hours * 3_600 >= ANNUAL_WINDOW_SECS,
        swept_at <= now,
    ensures
        store.swept(retention_cutoff(swept_at, retention_hours)).spent(api_key_id, window, now)
            == store.spent(api_key_id, window, now),
        store.swept(retention_cutoff(swept_at, retention_hours)).tx_count(api_key_id, window, now)
            == store.tx_count(api_key_id, window, now),
        store.swept(retention_cutoff(swept_at, retention_hours)).caps == store.caps,
{
    lemma_retained_keeps_totals(
        store.ledger,
        retention_cutoff(swept_at, retention_hours),
        api_key_id,
        now - window.secs(),
        now,
    );
}

/// Whether a check is refused for its amount depends on the amount alone:
/// negative amounts are refused whatever the store holds, and no other
/// amount is refused as invalid.
pub proof fn lemma_check_validation(store: StoreView, api_key_id: ApiKeyId, amount_sats: i64, now: i64)
    ensures
        amount_sats < 0 <==> check_outcome(store, api_key_id, amount_sats, now) == Err::<
            LimitCheckResult,
            LimitError,
        >(LimitError::InvalidAmount),
{
}

} // verus!
