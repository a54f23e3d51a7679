//! Periodic reclaiming of ledger history.
//!
//! The sweeper itself neither sleeps nor logs: it says what to do on each
//! event, and whoever drives it waits for the next tick, runs the purge and
//! writes the log line.

use vstd::prelude::*;
use crate::limits::{retention_cutoff, Limits};
use crate::window::ANNUAL_WINDOW_SECS;

verus! {

/// Seconds between two sweeps: one day.
pub const SWEEP_INTERVAL_SECS: u64 = 86_400;

/// Default retention horizon in hours: 400 days, the annual window and a
/// margin of 35 days.
pub const DEFAULT_RETENTION_HOURS: i64 = 9_600;

/// The annual window in hours. A retention horizon has to be longer.
pub const ANNUAL_WINDOW_HOURS: i64 = 8_760;

/// What happened since the sweeper was last asked.
#[derive(Clone, Copy, Debug, PartialEq, Eq, Structural)]
pub enum SweepEvent {
    /// The interval has elapsed.
    Tick,
    /// The purge that was asked for went through and deleted this many
    /// rows.
    Completed { deleted_rows: u64 },
    /// The purge that was asked for failed.
    Failed,
}

/// What to do next.
#[derive(Clone, Copy, Debug, PartialEq, Eq, Structural)]
pub enum SweepAction {
    /// Purge the ledger rows older than this many hours.
    Purge { retention_hours: i64 },
    /// Report a successful purge and wait for the next tick.
    ReportPurged { deleted_rows: u64 },
    /// Report a failed purge and wait for the next tick; the purge is not
    /// repeated before it.
    ReportFailure,
}

/// The retention policy: how long ledger rows are kept.
#[derive(Clone, Copy, Debug)]
pub struct RetentionSweeper {
    retention_hours: i64,
}

impl RetentionSweeper {
    /// The horizon is longer than the annual window, so that no purge can
    /// reach into a window that is still in use.
    #[verifier::type_invariant]
    pub open spec fn inv(self) -> bool {
        ANNUAL_WINDOW_HOURS < self.hours()
    }

    /// The retention horizon in hours.
    pub closed spec fn hours(self) -> int {
        self.retention_hours as int
    }

    /// What the sweeper answers to `event`.
    pub open spec fn next_action(self, event: SweepEvent) -> SweepAction {
        match event {
            SweepEvent::Tick => SweepAction::Purge { retention_hours: self.hours() as i64 },
            SweepEvent::Completed { deleted_rows } => SweepAction::ReportPurged { deleted_rows },
            SweepEvent::Failed => SweepAction::ReportFailure,
        }
    }

    /// A sweeper with the default horizon of 400 days.
    pub fn new() -> (sweeper: RetentionSweeper)
        ensures
            sweeper.hours() == DEFAULT_RETENTION_HOURS,
            sweeper.inv(),
    {
        RetentionSweeper { retention_hours: DEFAULT_RETENTION_HOURS }
    }

    /// A sweeper with a horizon of `retention_hours`, if that is longer
    /// than the annual window.
    pub fn with_retention_hours(retention_hours: i64) -> (sweeper: Option<RetentionSweeper>)
        ensures
            sweeper is Some <==> ANNUAL_WINDOW_HOURS < retention_hours,
            sweeper matches Some(s) ==> s.hours() == retention_hours && s.inv(),
    {
        if ANNUAL_WINDOW_HOURS < retention_hours {
            Some(RetentionSweeper { retention_hours })
        } else {
            None
        }
    }

    /// The retention horizon in hours.
    pub fn retention_hours(&self) -> (hours: i64)
        ensures
            hours == self.hours(),
            ANNUAL_WINDOW_HOURS < hours,
            hours * 3_600 > ANNUAL_WINDOW_SECS,
    {
        proof {
            use_type_invariant(self);
        }
        self.retention_hours
    }

    /// Seconds to wait between two sweeps.
    pub fn interval_secs(&self) -> (secs: u64)
        ensures
            secs == SWEEP_INTERVAL_SECS,
    {
        SWEEP_INTERVAL_SECS
    }

    /// Says what to do on `event`: purge on a tick, report after a purge.
    /// A failed purge is reported and left until the next tick.
    pub fn step(&self, event: SweepEvent) -> (action: SweepAction)
        ensures
            action == self.next_action(event),
            action matches SweepAction::Purge { retention_hours } ==> retention_hours * 3_600
                > ANNUAL_WINDOW_SECS,
    {
        proof {
            use_type_invariant(self);
        }
        match event {
            SweepEvent::Tick => SweepAction::Purge { retention_hours: self.retention_hours },
            SweepEvent::Completed { deleted_rows } => SweepAction::ReportPurged { deleted_rows },
            SweepEvent::Failed => SweepAction::ReportFailure,
        }
    }

    /// Runs one sweep on `limits` at time `now` and says what to report.
    /// The rows older than the horizon go; the caps stay.
    pub fn sweep(&self, limits: &mut Limits, now: i64) -> (action: SweepAction)
        ensures
            final(limits)@ == old(limits)@.swept(retention_cutoff(now, self.hours() as i64)),
            action == (SweepAction::ReportPurged {
                deleted_rows: (old(limits)@.ledger.len() - final(limits)@.ledger.len()) as u64,
            }),
            final(limits)@.wf(),
    {
        let hours = self.retention_hours();
        let event = match limits.cleanup_old_transactions(hours, now) {
            Ok(deleted_rows) => SweepEvent::Completed { deleted_rows },
            Err(_) => SweepEvent::Failed,
        };
        self.step(event)
    }
}

} // verus!
