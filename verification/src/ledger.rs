//! The append-only ledger of committed expenditure and the sums taken over it.

use vstd::prelude::*;
use crate::error::StoreError;

verus! {

/// Identifier of the API key whose spending is governed: the key's UUID as
/// a 128-bit integer.
pub type ApiKeyId = u128;

/// One committed expenditure. Written once, never updated.
#[derive(Clone, Debug)]
pub struct LedgerEntry {
    pub api_key_id: ApiKeyId,
    pub amount_sats: i64,
    /// Reference to the caller's own transaction, if the caller gave one.
    pub transaction_id: Option<String>,
    /// Commit time, in seconds since the Unix epoch.
    pub created_at: i64,
}

/// Total and number of the ledger rows selected by an aggregation.
#[derive(Clone, Copy, Debug, PartialEq, Eq, Structural)]
pub struct WindowSpend {
    pub total_sats: i64,
    pub count: u64,
}

/// Whether `entry` belongs to `api_key_id` and was committed in the closed
/// interval from `earliest` to `latest`.
pub open spec fn selected(entry: LedgerEntry, api_key_id: ApiKeyId, earliest: int, latest: int)
    -> bool {
    entry.api_key_id == api_key_id && earliest <= entry.created_at <= latest
}

/// Sum of the amounts of the selected rows of `ledger`.
pub open spec fn total_between(
    ledger: Seq<LedgerEntry>,
    api_key_id: ApiKeyId,
    earliest: int,
    latest: int,
) -> int
    decreases ledger.len(),
{
    if ledger.len() == 0 {
        0
    } else {
        total_between(ledger.drop_last(), api_key_id, earliest, latest) + if selected(
            ledger.last(),
            api_key_id,
            earliest,
            latest,
        ) {
            ledger.last().amount_sats as int
        } else {
            0
        }
    }
}

/// Number of the selected rows of `ledger`.
pub open spec fn count_between(
    ledger: Seq<LedgerEntry>,
    api_key_id: ApiKeyId,
    earliest: int,
    latest: int,
) -> nat
    decreases ledger.len(),
{
    if ledger.len() == 0 {
        0
    } else {
        count_between(ledger.drop_last(), api_key_id, earliest, latest) + if selected(
            ledger.last(),
            api_key_id,
            earliest,
            latest,
        ) {
            1nat
        } else {
            0nat
        }
    }
}

/// The rows of `ledger` committed at or after `cutoff`, in their order.
pub open spec fn retained(ledger: Seq<LedgerEntry>, cutoff: int) -> Seq<LedgerEntry>
    decreases ledger.len(),
{
    if ledger.len() == 0 {
        Seq::empty()
    } else if ledger.last().created_at >= cutoff {
        retained(ledger.drop_last(), cutoff).push(ledger.last())
    } else {
        retained(ledger.drop_last(), cutoff)
    }
}

/// Every row of `ledger` carries a positive amount.
pub open spec fn all_positive(ledger: Seq<LedgerEntry>) -> bool {
    forall|i: int| 0 <= i < ledger.len() ==> (#[trigger] ledger[i]).amount_sats > 0
}

/// Sums and counts the rows of `entries` that belong to `api_key_id` and
/// were committed between `earliest` and `latest`, both included. Fails
/// exactly when the sum does not fit an `i64`.
pub fn aggregate(entries: &Vec<LedgerEntry>, api_key_id: ApiKeyId, earliest: i128, latest: i64)
    -> (res: Result<WindowSpend, StoreError>)
    ensures
        res is Ok <==> i64::MIN <= total_between(entries@, api_key_id, earliest as int, latest as int)
            <= i64::MAX,
        res matches Ok(spend) ==> {
            &&& spend.total_sats == total_between(
                entries@,
                api_key_id,
                earliest as int,
                latest as int,
            )
            &&& spend.count == count_between(entries@, api_key_id, earliest as int, latest as int)
        },
        res matches Err(e) ==> e == StoreError::AmountOutOfRange,
{
    let mut total: i128 = 0;
    let mut count: u64 = 0;
    let mut i: usize = 0;
    while i < entries.len()
        invariant
            i <= entries.len(),
            total == total_between(entries@.take(i as int), api_key_id, earliest as int, latest as int),
            count == count_between(entries@.take(i as int), api_key_id, earliest as int, latest as int),
            count <= i,
            -(i as int) * 0x8000_0000_0000_0000 <= total <= (i as int) * 0x7fff_ffff_ffff_ffff,
        decreases entries.len() - i,
    {
        let entry = &entries[i];
        proof {
            let next = entries@.take(i + 1);
            assert(next.drop_last() =~= entries@.take(i as int));
            assert(next.last() == entries@[i as int]);
        }
        if entry.api_key_id == api_key_id && earliest <= entry.created_at as i128
            && entry.created_at <= latest {
            total = total + entry.amount_sats as i128;
            count = count + 1;
        }
        i = i + 1;
    }
    proof {
        assert(entries@.take(i as int) =~= entries@);
    }
    if total < i64::MIN as i128 || total > i64::MAX as i128 {
        Err(StoreError::AmountOutOfRange)
    } else {
        Ok(WindowSpend { total_sats: total as i64, count })
    }
}

/// Drops from `entries` every row committed before `cutoff`, keeping the
/// others in their order, and returns how many rows were dropped.
pub fn discard_before(entries: &mut Vec<LedgerEntry>, cutoff: i128) -> (dropped: u64)
    ensures
        final(entries)@ == retained(old(entries)@, cutoff as int),
        dropped == old(entries)@.len() - final(entries)@.len(),
{
    let mut kept: Vec<LedgerEntry> = Vec::new();
    let mut dropped: u64 = 0;
    let ghost before = entries@;
    let rows = entries.len();
    let mut all: Vec<LedgerEntry> = Vec::new();
    std::mem::swap(entries, &mut all);
    for entry in it: all.into_iter()
        invariant
            it.seq() == before,
            before.len() == rows,
            kept@ == retained(before.take(it.index() as int), cutoff as int),
            dropped == it.index() - kept@.len(),
            kept@.len() <= it.index(),
    {
        proof {
            let next = before.take(it.index() + 1);
            assert(next.drop_last() =~= before.take(it.index() as int));
            assert(next.last() == before[it.index() as int]);
        }
        if entry.created_at as i128 >= cutoff {
            kept.push(entry);
        } else {
            dropped = dropped + 1;
        }
    }
    proof {
        assert(before.take(before.len() as int) =~= before);
    }
    *entries = kept;
    dropped
}

/// With positive amounts a window total is never negative, and is at least
/// the number of rows it sums.
pub proof fn lemma_total_nonnegative(
    ledger: Seq<LedgerEntry>,
    api_key_id: ApiKeyId,
    earliest: int,
    latest: int,
)
    requires
        all_positive(ledger),
    ensures
        total_between(ledger, api_key_id, earliest, latest) >= count_between(
            ledger,
            api_key_id,
            earliest,
            latest,
        ) >= 0,
    decreases ledger.len(),
{
    if ledger.len() > 0 {
        assert(ledger.last() == ledger[ledger.len() - 1]);
        assert forall|i: int| 0 <= i < ledger.drop_last().len() implies (
        #[trigger] ledger.drop_last()[i]).amount_sats > 0 by {
            assert(ledger.drop_last()[i] == ledger[i]);
        }
        lemma_total_nonnegative(ledger.drop_last(), api_key_id, earliest, latest);
    }
}

/// Appending a row adds its amount to the totals of the windows that
/// select it, one to their counts, and nothing to any other window.
pub proof fn lemma_push_adds(
    ledger: Seq<LedgerEntry>,
    entry: LedgerEntry,
    api_key_id: ApiKeyId,
    earliest: int,
    latest: int,
)
    ensures
        total_between(ledger.push(entry), api_key_id, earliest, latest) == total_between(
            ledger,
            api_key_id,
            earliest,
            latest,
        ) + if selected(entry, api_key_id, earliest, latest) {
            entry.amount_sats as int
        } else {
            0
        },
        count_between(ledger.push(entry), api_key_id, earliest, latest) == count_between(
            ledger,
            api_key_id,
            earliest,
            latest,
        ) + if selected(entry, api_key_id, earliest, latest) {
            1nat
        } else {
            0nat
        },
        all_positive(ledger) && entry.amount_sats > 0 ==> all_positive(ledger.push(entry)),
{
    assert(ledger.push(entry).drop_last() =~= ledger);
    assert(ledger.push(entry).last() == entry);
}

/// Appending rows with positive amounts never lowers a window total or a
/// window count.
pub proof fn lemma_append_monotonic(
    ledger: Seq<LedgerEntry>,
    more: Seq<LedgerEntry>,
    api_key_id: ApiKeyId,
    earliest: int,
    latest: int,
)
    requires
        all_positive(more),
    ensures
        total_between(ledger + more, api_key_id, earliest, latest) >= total_between(
            ledger,
            api_key_id,
            earliest,
            latest,
        ),
        count_between(ledger + more, api_key_id, earliest, latest) >= count_between(
            ledger,
            api_key_id,
            earliest,
            latest,
        ),
    decreases more.len(),
{
    if more.len() == 0 {
        assert(ledger + more =~= ledger);
    } else {
        assert(more.last() == more[more.len() - 1]);
        assert forall|i: int| 0 <= i < more.drop_last().len() implies (#[trigger] more.drop_last()[i]).amount_sats
            > 0 by {
            assert(more.drop_last()[i] == more[i]);
        }
        lemma_append_monotonic(ledger, more.drop_last(), api_key_id, earliest, latest);
        assert(ledger + more =~= (ledger + more.drop_last()).push(more.last()));
        lemma_push_adds(ledger + more.drop_last(), more.last(), api_key_id, earliest, latest);
    }
}

/// With positive amounts, an interval that contains another selects at
/// least as much and at least as many rows.
pub proof fn lemma_wider_interval(
    ledger: Seq<LedgerEntry>,
    api_key_id: ApiKeyId,
    earliest: int,
    latest: int,
    wider_earliest: int,
    wider_latest: int,
)
    requires
        all_positive(ledger),
        wider_earliest <= earliest,
        latest <= wider_latest,
    ensures
        total_between(ledger, api_key_id, earliest, latest) <= total_between(
            ledger,
            api_key_id,
            wider_earliest,
            wider_latest,
        ),
        count_between(ledger, api_key_id, earliest, latest) <= count_between(
            ledger,
            api_key_id,
            wider_earliest,
            wider_latest,
        ),
    decreases ledger.len(),
{
    if ledger.len() > 0 {
        assert(ledger.last() == ledger[ledger.len() - 1]);
        assert forall|i: int| 0 <= i < ledger.drop_last().len() implies (
        #[trigger] ledger.drop_last()[i]).amount_sats > 0 by {
            assert(ledger.drop_last()[i] == ledger[i]);
        }
        lemma_wider_interval(
            ledger.drop_last(),
            api_key_id,
            earliest,
            latest,
            wider_earliest,
            wider_latest,
        );
    }
}

/// Purging keeps positive amounts positive and never lengthens the ledger.
pub proof fn lemma_retained_positive(ledger: Seq<LedgerEntry>, cutoff: int)
    ensures
        retained(ledger, cutoff).len() <= ledger.len(),
        all_positive(ledger) ==> all_positive(retained(ledger, cutoff)),
    decreases ledger.len(),
{
    if ledger.len() > 0 {
        lemma_retained_positive(ledger.drop_last(), cutoff);
        if all_positive(ledger) {
            assert(ledger.last() == ledger[ledger.len() - 1]);
            assert forall|i: int| 0 <= i < ledger.drop_last().len() implies (
            #[trigger] ledger.drop_last()[i]).amount_sats > 0 by {
                assert(ledger.drop_last()[i] == ledger[i]);
            }
            let rest = retained(ledger.drop_last(), cutoff);
            assert(all_positive(rest));
            if ledger.last().created_at >= cutoff {
                assert forall|i: int| 0 <= i < rest.push(ledger.last()).len() implies (
                #[trigger] rest.push(ledger.last())[i]).amount_sats > 0 by {
                    if i < rest.len() {
                        assert(rest.push(ledger.last())[i] == rest[i]);
                    }
                }
            }
        }
    }
}

/// Purging the rows committed before `cutoff` changes no total and no
/// count taken over an interval that starts at or after `cutoff`.
pub proof fn lemma_retained_keeps_totals(
    ledger: Seq<LedgerEntry>,
    cutoff: int,
    api_key_id: ApiKeyId,
    earliest: int,
    latest: int,
)
    requires
        cutoff <= earliest,
    ensures
        total_between(retained(ledger, cutoff), api_key_id, earliest, latest) == total_between(
            ledger,
            api_key_id,
            earliest,
            latest,
        ),
        count_between(retained(ledger, cutoff), api_key_id, earliest, latest) == count_between(
            ledger,
            api_key_id,
            earliest,
            latest,
        ),
    decreases ledger.len(),
{
    if ledger.len() > 0 {
        lemma_retained_keeps_totals(ledger.drop_last(), cutoff, api_key_id, earliest, latest);
        if ledger.last().created_at >= cutoff {
            lemma_push_adds(
                retained(ledger.drop_last(), cutoff),
                ledger.last(),
                api_key_id,
                earliest,
                latest,
            );
        }
    }
}

} // verus!
