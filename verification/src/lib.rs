//! Rolling-window spending limits for API keys.
//!
//! The crate decides whether a prospective expenditure fits under the caps
//! configured for a key, keeps the ledger of committed expenditure that those
//! decisions are computed from, and reclaims ledger history that no window
//! can reach any more. All amounts are satoshis held in `i64`; all points in
//! time are whole seconds since the Unix epoch, and every operation that
//! depends on the time is told the time by its caller.

pub mod caps;
pub mod config;
pub mod decision;
pub mod error;
pub mod key_id;
pub mod laws;
pub mod ledger;
pub mod limits;
pub mod store;
pub mod sweeper;
pub mod window;

pub use caps::SpendCap;
pub use config::ServerConfig;
pub use decision::{LimitCheckResult, SpendingSummary, WindowCounts, WindowSpends};
pub use error::{LimitError, StoreError};
pub use key_id::{parse_api_key_id, InvalidApiKeyId};
pub use ledger::{ApiKeyId, LedgerEntry, WindowSpend};
pub use limits::Limits;
pub use store::LimitStore;
pub use sweeper::{RetentionSweeper, SweepAction, SweepEvent};
pub use window::Window;
