//! The four rolling windows over which spending is capped.

use vstd::prelude::*;

verus! {

/// Seconds in one hour.
pub const SECONDS_PER_HOUR: i64 = 3_600;

/// Length of the daily window: 24 hours.
pub const DAILY_WINDOW_SECS: i64 = 86_400;

/// Length of the weekly window: 7 days.
pub const WEEKLY_WINDOW_SECS: i64 = 604_800;

/// Length of the monthly window: 30 days.
pub const MONTHLY_WINDOW_SECS: i64 = 2_592_000;

/// Length of the annual window: 365 days.
pub const ANNUAL_WINDOW_SECS: i64 = 31_536_000;

/// One of the four trailing windows. Each ends at "now" and reaches back
/// a fixed number of seconds; none is aligned to calendar boundaries.
#[derive(Clone, Copy, Debug, PartialEq, Eq, Structural)]
pub enum Window {
    Daily,
    Weekly,
    Monthly,
    Annual,
}

impl Window {
    /// Length of the window in seconds, as a mathematical integer.
    pub open spec fn secs(self) -> int {
        match self {
            Window::Daily => 86_400,
            Window::Weekly => 604_800,
            Window::Monthly => 2_592_000,
            Window::Annual => 31_536_000,
        }
    }

    /// Position of the window in the canonical order, shortest first.
    pub open spec fn rank(self) -> int {
        match self {
            Window::Daily => 0,
            Window::Weekly => 1,
            Window::Monthly => 2,
            Window::Annual => 3,
        }
    }

    /// Length of the window in seconds.
    pub fn duration_secs(self) -> (secs: i64)
        ensures
            secs == self.secs(),
            0 < secs <= ANNUAL_WINDOW_SECS,
    {
        match self {
            Window::Daily => DAILY_WINDOW_SECS,
            Window::Weekly => WEEKLY_WINDOW_SECS,
            Window::Monthly => MONTHLY_WINDOW_SECS,
            Window::Annual => ANNUAL_WINDOW_SECS,
        }
    }

    /// The four windows in canonical order: daily, weekly, monthly, annual.
    pub fn all() -> (windows: [Window; 4])
        ensures
            windows@ == seq![Window::Daily, Window::Weekly, Window::Monthly, Window::Annual],
    {
        [Window::Daily, Window::Weekly, Window::Monthly, Window::Annual]
    }
}

} // verus!
