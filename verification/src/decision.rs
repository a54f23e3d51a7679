//! The admission decision, as a function of caps, window totals and the
//! amount asked for.

use vstd::prelude::*;
use crate::caps::SpendCap;
use crate::error::LimitError;
use crate::window::Window;

verus! {

/// Amount spent in each of the four windows.
#[derive(Clone, Copy, Debug, PartialEq, Eq, Structural)]
pub struct WindowSpends {
    pub last_24h_sats: i64,
    pub last_7d_sats: i64,
    pub last_30d_sats: i64,
    pub last_365d_sats: i64,
}

/// Number of ledger rows in each of the four windows.
#[derive(Clone, Copy, Debug, PartialEq, Eq, Structural)]
pub struct WindowCounts {
    pub last_24h: u64,
    pub last_7d: u64,
    pub last_30d: u64,
    pub last_365d: u64,
}

/// Outcome of an admission check: the verdict, the caps it was taken
/// against and the window totals it was taken from.
#[derive(Clone, Copy, Debug, PartialEq, Eq, Structural)]
pub struct LimitCheckResult {
    pub allowed: bool,
    pub daily_limit_sats: Option<i64>,
    pub weekly_limit_sats: Option<i64>,
    pub monthly_limit_sats: Option<i64>,
    pub annual_limit_sats: Option<i64>,
    pub spent_last_24h_sats: i64,
    pub spent_last_7d_sats: i64,
    pub spent_last_30d_sats: i64,
    pub spent_last_365d_sats: i64,
}

/// Caps, window totals and window transaction counts of one key, for
/// reporting.
#[derive(Clone, Copy, Debug, PartialEq, Eq, Structural)]
pub struct SpendingSummary {
    pub daily_limit_sats: Option<i64>,
    pub weekly_limit_sats: Option<i64>,
    pub monthly_limit_sats: Option<i64>,
    pub annual_limit_sats: Option<i64>,
    pub spent_last_24h_sats: i64,
    pub spent_last_7d_sats: i64,
    pub spent_last_30d_sats: i64,
    pub spent_last_365d_sats: i64,
    pub tx_count_last_24h: u64,
    pub tx_count_last_7d: u64,
    pub tx_count_last_30d: u64,
    pub tx_count_last_365d: u64,
}

/// What is left under a ceiling: the ceiling less the amount spent, or
/// nothing to report where no ceiling is set.
pub open spec fn headroom(limit: Option<i64>, spent: i64) -> Option<int> {
    match limit {
        Some(limit) => Some(limit - spent),
        None => None,
    }
}

/// Whether `amount` fits under `limit` after `spent`: it does unless a
/// ceiling is set and what is left under it is less than `amount`.
pub open spec fn fits(limit: Option<i64>, spent: i64, amount: i64) -> bool {
    limit matches Some(limit) ==> limit - spent >= amount
}

impl WindowSpends {
    /// The amount spent in `window`.
    pub open spec fn get(self, window: Window) -> i64 {
        match window {
            Window::Daily => self.last_24h_sats,
            Window::Weekly => self.last_7d_sats,
            Window::Monthly => self.last_30d_sats,
            Window::Annual => self.last_365d_sats,
        }
    }

    /// The totals with that of `window` replaced by `sats`.
    pub open spec fn put(self, window: Window, sats: i64) -> WindowSpends {
        match window {
            Window::Daily => WindowSpends { last_24h_sats: sats, ..self },
            Window::Weekly => WindowSpends { last_7d_sats: sats, ..self },
            Window::Monthly => WindowSpends { last_30d_sats: sats, ..self },
            Window::Annual => WindowSpends { last_365d_sats: sats, ..self },
        }
    }

    /// Nothing spent in any window.
    pub open spec fn nothing() -> WindowSpends {
        WindowSpends { last_24h_sats: 0, last_7d_sats: 0, last_30d_sats: 0, last_365d_sats: 0 }
    }

    /// Nothing spent in any window.
    pub fn zero() -> (spends: WindowSpends)
        ensures
            spends == WindowSpends::nothing(),
    {
        WindowSpends { last_24h_sats: 0, last_7d_sats: 0, last_30d_sats: 0, last_365d_sats: 0 }
    }

    /// The amount spent in `window`.
    pub fn spent(&self, window: Window) -> (sats: i64)
        ensures
            sats == self.get(window),
    {
        match window {
            Window::Daily => self.last_24h_sats,
            Window::Weekly => self.last_7d_sats,
            Window::Monthly => self.last_30d_sats,
            Window::Annual => self.last_365d_sats,
        }
    }

    /// Replaces the total of `window` by `sats`, leaving the others.
    pub fn set(&mut self, window: Window, sats: i64)
        ensures
            *final(self) == old(self).put(window, sats),
    {
        match window {
            Window::Daily => self.last_24h_sats = sats,
            Window::Weekly => self.last_7d_sats = sats,
            Window::Monthly => self.last_30d_sats = sats,
            Window::Annual => self.last_365d_sats = sats,
        }
    }
}

impl WindowCounts {
    /// The number of rows in `window`.
    pub open spec fn get(self, window: Window) -> u64 {
        match window {
            Window::Daily => self.last_24h,
            Window::Weekly => self.last_7d,
            Window::Monthly => self.last_30d,
            Window::Annual => self.last_365d,
        }
    }

    /// The counts with that of `window` replaced by `rows`.
    pub open spec fn put(self, window: Window, rows: u64) -> WindowCounts {
        match window {
            Window::Daily => WindowCounts { last_24h: rows, ..self },
            Window::Weekly => WindowCounts { last_7d: rows, ..self },
            Window::Monthly => WindowCounts { last_30d: rows, ..self },
            Window::Annual => WindowCounts { last_365d: rows, ..self },
        }
    }

    /// No row in any window.
    pub open spec fn nothing() -> WindowCounts {
        WindowCounts { last_24h: 0, last_7d: 0, last_30d: 0, last_365d: 0 }
    }

    /// No row in any window.
    pub fn zero() -> (counts: WindowCounts)
        ensures
            counts == WindowCounts::nothing(),
    {
        WindowCounts { last_24h: 0, last_7d: 0, last_30d: 0, last_365d: 0 }
    }

    /// Replaces the count of `window` by `rows`, leaving the others.
    pub fn set(&mut self, window: Window, rows: u64)
        ensures
            *final(self) == old(self).put(window, rows),
    {
        match window {
            Window::Daily => self.last_24h = rows,
            Window::Weekly => self.last_7d = rows,
            Window::Monthly => self.last_30d = rows,
            Window::Annual => self.last_365d = rows,
        }
    }
}

/// Whether `amount` fits under every ceiling of `cap`, given what was
/// spent in each window. Windows without a ceiling never object.
pub open spec fn admits(cap: SpendCap, spends: WindowSpends, amount: i64) -> bool {
    forall|window: Window| fits(#[trigger] cap.get(window), spends.get(window), amount)
}

/// The check result for `cap`, `spends` and `amount`.
pub open spec fn decision(cap: SpendCap, spends: WindowSpends, amount: i64) -> LimitCheckResult {
    LimitCheckResult {
        allowed: admits(cap, spends, amount),
        daily_limit_sats: cap.daily_limit_sats,
        weekly_limit_sats: cap.weekly_limit_sats,
        monthly_limit_sats: cap.monthly_limit_sats,
        annual_limit_sats: cap.annual_limit_sats,
        spent_last_24h_sats: spends.last_24h_sats,
        spent_last_7d_sats: spends.last_7d_sats,
        spent_last_30d_sats: spends.last_30d_sats,
        spent_last_365d_sats: spends.last_365d_sats,
    }
}

/// The summary made of `cap`, `spends` and `counts`.
pub open spec fn summary_of(cap: SpendCap, spends: WindowSpends, counts: WindowCounts)
    -> SpendingSummary {
    SpendingSummary {
        daily_limit_sats: cap.daily_limit_sats,
        weekly_limit_sats: cap.weekly_limit_sats,
        monthly_limit_sats: cap.monthly_limit_sats,
        annual_limit_sats: cap.annual_limit_sats,
        spent_last_24h_sats: spends.last_24h_sats,
        spent_last_7d_sats: spends.last_7d_sats,
        spent_last_30d_sats: spends.last_30d_sats,
        spent_last_365d_sats: spends.last_365d_sats,
        tx_count_last_24h: counts.last_24h,
        tx_count_last_7d: counts.last_7d,
        tx_count_last_30d: counts.last_30d,
        tx_count_last_365d: counts.last_365d,
    }
}

/// An amount offered for an admission check is refused exactly when it is
/// negative; zero is a legitimate probe.
pub fn validate_check_amount(amount_sats: i64) -> (res: Result<(), LimitError>)
    ensures
        res is Ok <==> amount_sats >= 0,
        res is Err ==> res == Err::<(), LimitError>(LimitError::InvalidAmount),
{
    if amount_sats < 0 {
        Err(LimitError::InvalidAmount)
    } else {
        Ok(())
    }
}

/// An amount offered for recording is refused exactly when it is zero or
/// negative.
pub fn validate_record_amount(amount_sats: i64) -> (res: Result<(), LimitError>)
    ensures
        res is Ok <==> amount_sats > 0,
        res is Err ==> res == Err::<(), LimitError>(LimitError::NonPositiveAmount),
{
    if amount_sats <= 0 {
        Err(LimitError::NonPositiveAmount)
    } else {
        Ok(())
    }
}

/// A value offered as a cap is refused exactly when it is zero or negative.
pub fn validate_limit(limit_sats: i64) -> (res: Result<(), LimitError>)
    ensures
        res is Ok <==> limit_sats > 0,
        res is Err ==> res == Err::<(), LimitError>(LimitError::InvalidLimit),
{
    if limit_sats <= 0 {
        Err(LimitError::InvalidLimit)
    } else {
        Ok(())
    }
}

/// Whether `amount_sats` fits under one ceiling after `spent_sats`.
pub fn fits_under(limit_sats: Option<i64>, spent_sats: i64, amount_sats: i64) -> (ok: bool)
    ensures
        ok == fits(limit_sats, spent_sats, amount_sats),
{
    match limit_sats {
        Some(limit) => limit as i128 - spent_sats as i128 >= amount_sats as i128,
        None => true,
    }
}

/// Takes the admission decision: allowed unless some window with a ceiling
/// has less left under it than `amount_sats`. The caps and totals are
/// reported back unchanged.
pub fn decide(cap: &SpendCap, spends: &WindowSpends, amount_sats: i64) -> (result:
    LimitCheckResult)
    ensures
        result == decision(*cap, *spends, amount_sats),
{
    let allowed = fits_under(cap.daily_limit_sats, spends.last_24h_sats, amount_sats) && fits_under(
        cap.weekly_limit_sats,
        spends.last_7d_sats,
        amount_sats,
    ) && fits_under(cap.monthly_limit_sats, spends.last_30d_sats, amount_sats) && fits_under(
        cap.annual_limit_sats,
        spends.last_365d_sats,
        amount_sats,
    );
    proof {
        if allowed {
            assert forall|window: Window|
                fits(#[trigger] cap.get(window), spends.get(window), amount_sats) by {
                match window {
                    Window::Daily => {},
                    Window::Weekly => {},
                    Window::Monthly => {},
                    Window::Annual => {},
                }
            }
        } else {
            assert(!fits(cap.get(Window::Daily), spends.get(Window::Daily), amount_sats) || !fits(
                cap.get(Window::Weekly),
                spends.get(Window::Weekly),
                amount_sats,
            ) || !fits(cap.get(Window::Monthly), spends.get(Window::Monthly), amount_sats) || !fits(
                cap.get(Window::Annual),
                spends.get(Window::Annual),
                amount_sats,
            ));
        }
    }
    LimitCheckResult {
        allowed,
        daily_limit_sats: cap.daily_limit_sats,
        weekly_limit_sats: cap.weekly_limit_sats,
        monthly_limit_sats: cap.monthly_limit_sats,
        annual_limit_sats: cap.annual_limit_sats,
        spent_last_24h_sats: spends.last_24h_sats,
        spent_last_7d_sats: spends.last_7d_sats,
        spent_last_30d_sats: spends.last_30d_sats,
        spent_last_365d_sats: spends.last_365d_sats,
    }
}

/// Puts caps, totals and counts together into a summary.
pub fn summarize(cap: &SpendCap, spends: &WindowSpends, counts: &WindowCounts) -> (summary:
    SpendingSummary)
    ensures
        summary == summary_of(*cap, *spends, *counts),
{
    SpendingSummary {
        daily_limit_sats: cap.daily_limit_sats,
        weekly_limit_sats: cap.weekly_limit_sats,
        monthly_limit_sats: cap.monthly_limit_sats,
        annual_limit_sats: cap.annual_limit_sats,
        spent_last_24h_sats: spends.last_24h_sats,
        spent_last_7d_sats: spends.last_7d_sats,
        spent_last_30d_sats: spends.last_30d_sats,
        spent_last_365d_sats: spends.last_365d_sats,
        tx_count_last_24h: counts.last_24h,
        tx_count_last_7d: counts.last_7d,
        tx_count_last_30d: counts.last_30d,
        tx_count_last_365d: counts.last_365d,
    }
}

/// What is left under a ceiling after `spent_sats`, where a ceiling is set
/// and the difference fits an `i64`.
pub fn remaining_under(limit_sats: Option<i64>, spent_sats: i64) -> (left: Option<i64>)
    ensures
        left matches Some(sats) ==> headroom(limit_sats, spent_sats) == Some(sats as int),
        left is None <==> (limit_sats is None || !(i64::MIN <= limit_sats.unwrap() - spent_sats
            <= i64::MAX)),
{
    match limit_sats {
        Some(limit) => limit.checked_sub(spent_sats),
        None => None,
    }
}

impl LimitCheckResult {
    /// The caps the decision was taken against.
    pub open spec fn cap(self) -> SpendCap {
        SpendCap {
            daily_limit_sats: self.daily_limit_sats,
            weekly_limit_sats: self.weekly_limit_sats,
            monthly_limit_sats: self.monthly_limit_sats,
            annual_limit_sats: self.annual_limit_sats,
        }
    }

    /// The window totals the decision was taken from.
    pub open spec fn spends(self) -> WindowSpends {
        WindowSpends {
            last_24h_sats: self.spent_last_24h_sats,
            last_7d_sats: self.spent_last_7d_sats,
            last_30d_sats: self.spent_last_30d_sats,
            last_365d_sats: self.spent_last_365d_sats,
        }
    }

    /// The result reported for a key without any cap: allowed, no caps, and
    /// zero for every window total, since none is computed.
    pub open spec fn unlimited_spec() -> LimitCheckResult {
        decision(SpendCap::unset(), WindowSpends::nothing(), 0)
    }

    /// The result reported for a key without any cap.
    pub fn unlimited() -> (result: LimitCheckResult)
        ensures
            result == LimitCheckResult::unlimited_spec(),
            result.allowed,
    {
        LimitCheckResult {
            allowed: true,
            daily_limit_sats: None,
            weekly_limit_sats: None,
            monthly_limit_sats: None,
            annual_limit_sats: None,
            spent_last_24h_sats: 0,
            spent_last_7d_sats: 0,
            spent_last_30d_sats: 0,
            spent_last_365d_sats: 0,
        }
    }

    /// What is left under the ceiling of `window`: the ceiling less the
    /// amount spent in that window.
    pub fn remaining_sats(&self, window: Window) -> (left: Option<i64>)
        ensures
            left matches Some(sats) ==> headroom(self.cap().get(window), self.spends().get(window))
                == Some(sats as int),
            left is None <==> (self.cap().get(window) is None || !(i64::MIN
                <= self.cap().get(window).unwrap() - self.spends().get(window) <= i64::MAX)),
    {
        match window {
            Window::Daily => remaining_under(self.daily_limit_sats, self.spent_last_24h_sats),
            Window::Weekly => remaining_under(self.weekly_limit_sats, self.spent_last_7d_sats),
            Window::Monthly => remaining_under(self.monthly_limit_sats, self.spent_last_30d_sats),
            Window::Annual => remaining_under(self.annual_limit_sats, self.spent_last_365d_sats),
        }
    }
}

impl SpendingSummary {
    /// The caps reported by the summary.
    pub open spec fn cap(self) -> SpendCap {
        SpendCap {
            daily_limit_sats: self.daily_limit_sats,
            weekly_limit_sats: self.weekly_limit_sats,
            monthly_limit_sats: self.monthly_limit_sats,
            annual_limit_sats: self.annual_limit_sats,
        }
    }

    /// The window totals reported by the summary.
    pub open spec fn spends(self) -> WindowSpends {
        WindowSpends {
            last_24h_sats: self.spent_last_24h_sats,
            last_7d_sats: self.spent_last_7d_sats,
            last_30d_sats: self.spent_last_30d_sats,
            last_365d_sats: self.spent_last_365d_sats,
        }
    }

    /// The window transaction counts reported by the summary.
    pub open spec fn counts(self) -> WindowCounts {
        WindowCounts {
            last_24h: self.tx_count_last_24h,
            last_7d: self.tx_count_last_7d,
            last_30d: self.tx_count_last_30d,
            last_365d: self.tx_count_last_365d,
        }
    }

    /// What is left under the ceiling of `window`: the ceiling less the
    /// amount spent in that window.
    pub fn remaining_sats(&self, window: Window) -> (left: Option<i64>)
        ensures
            left matches Some(sats) ==> headroom(self.cap().get(window), self.spends().get(window))
                == Some(sats as int),
            left is None <==> (self.cap().get(window) is None || !(i64::MIN
                <= self.cap().get(window).unwrap() - self.spends().get(window) <= i64::MAX)),
    {
        match window {
            Window::Daily => remaining_under(self.daily_limit_sats, self.spent_last_24h_sats),
            Window::Weekly => remaining_under(self.weekly_limit_sats, self.spent_last_7d_sats),
            Window::Monthly => remaining_under(self.monthly_limit_sats, self.spent_last_30d_sats),
            Window::Annual => remaining_under(self.annual_limit_sats, self.spent_last_365d_sats),
        }
    }
}

} // verus!
