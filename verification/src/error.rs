//! Errors reported by the limits engine.

use vstd::prelude::*;

verus! {

/// A failure of the backing store.
#[derive(Clone, Copy, Debug, PartialEq, Eq, Structural)]
pub enum StoreError {
    /// The total of the ledger rows selected by an aggregation does not fit
    /// the 64-bit signed amount type.
    AmountOutOfRange,
}

/// Why a limits operation was refused.
#[derive(Clone, Copy, Debug, PartialEq, Eq, Structural)]
pub enum LimitError {
    /// The backing store failed; the underlying failure is carried along.
    Store(StoreError),
    /// A negative amount was offered for an admission check.
    InvalidAmount,
    /// A zero or negative amount was offered for recording.
    NonPositiveAmount,
    /// A zero or negative value was offered as a cap.
    InvalidLimit,
}

impl StoreError {
    /// Human-readable description of the failure.
    pub fn message(&self) -> (text: String)
        ensures
            text@ == "aggregated amount is out of range"@,
    {
        "aggregated amount is out of range".to_owned()
    }
}

impl LimitError {
    /// The text that describes each error.
    pub open spec fn message_text(self) -> Seq<char> {
        match self {
            LimitError::Store(_) => "Database error: aggregated amount is out of range"@,
            LimitError::InvalidAmount => "Negative amount not allowed"@,
            LimitError::NonPositiveAmount => "Amount must be positive"@,
            LimitError::InvalidLimit => "Invalid limit value (must be positive)"@,
        }
    }

    /// Human-readable description of the error.
    pub fn message(&self) -> (text: String)
        ensures
            text@ == self.message_text(),
    {
        match self {
            LimitError::Store(_) => "Database error: aggregated amount is out of range".to_owned(),
            LimitError::InvalidAmount => "Negative amount not allowed".to_owned(),
            LimitError::NonPositiveAmount => "Amount must be positive".to_owned(),
            LimitError::InvalidLimit => "Invalid limit value (must be positive)".to_owned(),
        }
    }

    /// Whether the error was detected by validating the arguments alone,
    /// before the store was consulted.
    pub open spec fn is_validation(self) -> bool {
        !(self is Store)
    }
}

} // verus!
