//! The sparse cap record of one API key.

use vstd::prelude::*;
use crate::window::Window;

verus! {

broadcast use {
    vstd::seq_lib::lemma_seq_contains_after_push,
    vstd::seq_lib::lemma_seq_empty_contains_nothing,
};

/// The caps configured for one API key, one optional ceiling per window.
/// `None` means that the window is unlimited.
#[derive(Clone, Copy, Debug, PartialEq, Eq, Structural)]
pub struct SpendCap {
    pub daily_limit_sats: Option<i64>,
    pub weekly_limit_sats: Option<i64>,
    pub monthly_limit_sats: Option<i64>,
    pub annual_limit_sats: Option<i64>,
}

impl SpendCap {
    /// The record with no ceiling at all.
    pub open spec fn unset() -> SpendCap {
        SpendCap {
            daily_limit_sats: None,
            weekly_limit_sats: None,
            monthly_limit_sats: None,
            annual_limit_sats: None,
        }
    }

    /// The ceiling configured for `window`, if any.
    pub open spec fn get(self, window: Window) -> Option<i64> {
        match window {
            Window::Daily => self.daily_limit_sats,
            Window::Weekly => self.weekly_limit_sats,
            Window::Monthly => self.monthly_limit_sats,
            Window::Annual => self.annual_limit_sats,
        }
    }

    /// The record with the ceiling of `window` replaced by `limit` and the
    /// other three ceilings kept.
    pub open spec fn put(self, window: Window, limit: Option<i64>) -> SpendCap {
        match window {
            Window::Daily => SpendCap { daily_limit_sats: limit, ..self },
            Window::Weekly => SpendCap { weekly_limit_sats: limit, ..self },
            Window::Monthly => SpendCap { monthly_limit_sats: limit, ..self },
            Window::Annual => SpendCap { annual_limit_sats: limit, ..self },
        }
    }

    /// No window has a ceiling.
    pub open spec fn is_unset(self) -> bool {
        self == SpendCap::unset()
    }

    /// How many of the four windows have a ceiling.
    pub open spec fn configured(self) -> nat {
        let d: nat = if self.daily_limit_sats is Some { 1 } else { 0 };
        let w: nat = if self.weekly_limit_sats is Some { 1 } else { 0 };
        let m: nat = if self.monthly_limit_sats is Some { 1 } else { 0 };
        let a: nat = if self.annual_limit_sats is Some { 1 } else { 0 };
        d + w + m + a
    }

    /// Every configured ceiling is a positive amount.
    pub open spec fn wf(self) -> bool {
        &&& self.daily_limit_sats matches Some(limit) ==> limit > 0
        &&& self.weekly_limit_sats matches Some(limit) ==> limit > 0
        &&& self.monthly_limit_sats matches Some(limit) ==> limit > 0
        &&& self.annual_limit_sats matches Some(limit) ==> limit > 0
    }

    /// The record with no ceiling at all.
    pub fn none() -> (cap: SpendCap)
        ensures
            cap == SpendCap::unset(),
            cap.wf(),
    {
        SpendCap {
            daily_limit_sats: None,
            weekly_limit_sats: None,
            monthly_limit_sats: None,
            annual_limit_sats: None,
        }
    }

    /// The ceiling configured for `window`, if any.
    pub fn limit(&self, window: Window) -> (limit: Option<i64>)
        ensures
            limit == self.get(window),
    {
        match window {
            Window::Daily => self.daily_limit_sats,
            Window::Weekly => self.weekly_limit_sats,
            Window::Monthly => self.monthly_limit_sats,
            Window::Annual => self.annual_limit_sats,
        }
    }

    /// Whether no window has a ceiling.
    pub fn is_empty(&self) -> (empty: bool)
        ensures
            empty == self.is_unset(),
            empty == (self.configured() == 0),
    {
        self.daily_limit_sats.is_none() && self.weekly_limit_sats.is_none()
            && self.monthly_limit_sats.is_none() && self.annual_limit_sats.is_none()
    }

    /// Sets the ceiling of `window` to `limit_sats`, leaving the other three
    /// ceilings as they are.
    pub fn with_limit(self, window: Window, limit_sats: i64) -> (cap: SpendCap)
        ensures
            cap == self.put(window, Some(limit_sats)),
            self.wf() && limit_sats > 0 ==> cap.wf(),
            !cap.is_unset(),
    {
        match window {
            Window::Daily => SpendCap { daily_limit_sats: Some(limit_sats), ..self },
            Window::Weekly => SpendCap { weekly_limit_sats: Some(limit_sats), ..self },
            Window::Monthly => SpendCap { monthly_limit_sats: Some(limit_sats), ..self },
            Window::Annual => SpendCap { annual_limit_sats: Some(limit_sats), ..self },
        }
    }

    /// Clears the ceiling of `window`, leaving the other three ceilings as
    /// they are.
    pub fn without_limit(self, window: Window) -> (cap: SpendCap)
        ensures
            cap == self.put(window, None),
            self.wf() ==> cap.wf(),
    {
        match window {
            Window::Daily => SpendCap { daily_limit_sats: None, ..self },
            Window::Weekly => SpendCap { weekly_limit_sats: None, ..self },
            Window::Monthly => SpendCap { monthly_limit_sats: None, ..self },
            Window::Annual => SpendCap { annual_limit_sats: None, ..self },
        }
    }

    /// The windows that have a ceiling, shortest first, each once: the
    /// windows whose totals an admission check has to aggregate. A record
    /// without any ceiling gives none.
    pub fn windows_to_aggregate(&self) -> (windows: Vec<Window>)
        ensures
            forall|w: Window| #[trigger] windows@.contains(w) <==> self.get(w) is Some,
            forall|i: int, j: int|
                0 <= i < j < windows.len() ==> (#[trigger] windows[i]).rank() < (
                #[trigger] windows[j]).rank(),
    {
        let all = Window::all();
        let mut windows: Vec<Window> = Vec::new();
        let mut i: usize = 0;
        while i < 4
            invariant
                i <= 4,
                all@ == seq![Window::Daily, Window::Weekly, Window::Monthly, Window::Annual],
                forall|w: Window|
                    #[trigger] windows@.contains(w) <==> w.rank() < i && self.get(w) is Some,
                forall|k: int| 0 <= k < windows.len() ==> (#[trigger] windows[k]).rank() < i,
                forall|a: int, b: int|
                    0 <= a < b < windows.len() ==> (#[trigger] windows[a]).rank() < (
                    #[trigger] windows[b]).rank(),
            decreases 4 - i,
        {
            let window = all[i];
            assert(window.rank() == i);
            if self.limit(window).is_some() {
                windows.push(window);
            }
            i = i + 1;
        }
        windows
    }
}

/// Writing one window's ceiling changes that window and no other.
pub proof fn lemma_put_get(cap: SpendCap, window: Window, limit: Option<i64>, other: Window)
    ensures
        cap.put(window, limit).get(other) == if other == window {
            limit
        } else {
            cap.get(other)
        },
{
}

/// A record is unset exactly when none of its four windows has a ceiling.
pub proof fn lemma_unset_iff_no_window(cap: SpendCap)
    ensures
        cap.is_unset() <==> (forall|window: Window| #[trigger] cap.get(window) is None),
        cap.is_unset() <==> cap.configured() == 0,
{
    if forall|window: Window| #[trigger] cap.get(window) is None {
        assert(cap.get(Window::Daily) is None);
        assert(cap.get(Window::Weekly) is None);
        assert(cap.get(Window::Monthly) is None);
        assert(cap.get(Window::Annual) is None);
    }
}

} // verus!
