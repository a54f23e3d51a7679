use spend_limits::caps::SpendCap;
use spend_limits::config::{
    default_api_key_auth_header, default_internal_auth_secret, default_jwks_url, default_port,
    ServerConfig,
};
use spend_limits::decision::{
    decide, fits_under, remaining_under, summarize, validate_check_amount, validate_limit,
    validate_record_amount, LimitCheckResult, SpendingSummary, WindowCounts, WindowSpends,
};
use spend_limits::error::{LimitError, StoreError};
use spend_limits::key_id::{key_id_from, parse_api_key_id};
use spend_limits::ledger::{aggregate, discard_before, LedgerEntry, WindowSpend};
use spend_limits::limits::Limits;
use spend_limits::store::LimitStore;
use spend_limits::sweeper::{
    RetentionSweeper, SweepAction, SweepEvent, ANNUAL_WINDOW_HOURS, DEFAULT_RETENTION_HOURS,
    SWEEP_INTERVAL_SECS,
};
use spend_limits::window::{
    Window, ANNUAL_WINDOW_SECS, DAILY_WINDOW_SECS, MONTHLY_WINDOW_SECS, WEEKLY_WINDOW_SECS,
};

fn entry(api_key_id: u128, amount_sats: i64, created_at: i64) -> LedgerEntry {
    LedgerEntry { api_key_id, amount_sats, transaction_id: None, created_at }
}

#[test]
fn window_lengths() {
    assert_eq!(Window::Daily.duration_secs(), 24 * 60 * 60);
    assert_eq!(Window::Weekly.duration_secs(), 7 * 24 * 60 * 60);
    assert_eq!(Window::Monthly.duration_secs(), 30 * 24 * 60 * 60);
    assert_eq!(Window::Annual.duration_secs(), 365 * 24 * 60 * 60);
    assert_eq!(DAILY_WINDOW_SECS, 86_400);
    assert_eq!(WEEKLY_WINDOW_SECS, 604_800);
    assert_eq!(MONTHLY_WINDOW_SECS, 2_592_000);
    assert_eq!(ANNUAL_WINDOW_SECS, 31_536_000);
    assert_eq!(Window::all(), [Window::Daily, Window::Weekly, Window::Monthly, Window::Annual]);
}

#[test]
fn cap_record_set_and_clear() {
    let cap = SpendCap::none();
    assert!(cap.is_empty());
    let cap = cap.with_limit(Window::Monthly, 30);
    assert!(!cap.is_empty());
    assert_eq!(cap.limit(Window::Monthly), Some(30));
    assert_eq!(cap.limit(Window::Daily), None);
    let cap = cap.with_limit(Window::Daily, 1).with_limit(Window::Monthly, 31);
    assert_eq!(cap, SpendCap {
        daily_limit_sats: Some(1),
        weekly_limit_sats: None,
        monthly_limit_sats: Some(31),
        annual_limit_sats: None,
    });
    let cap = cap.without_limit(Window::Weekly).without_limit(Window::Daily);
    assert_eq!(cap.limit(Window::Daily), None);
    assert!(!cap.is_empty());
    assert!(cap.without_limit(Window::Monthly).is_empty());
    assert_eq!(cap.windows_to_aggregate(), vec![Window::Monthly]);
    assert!(SpendCap::none().windows_to_aggregate().is_empty());
}

#[test]
fn validation_rules() {
    assert_eq!(validate_check_amount(0), Ok(()));
    assert_eq!(validate_check_amount(i64::MAX), Ok(()));
    assert_eq!(validate_check_amount(-1), Err(LimitError::InvalidAmount));
    assert_eq!(validate_record_amount(1), Ok(()));
    assert_eq!(validate_record_amount(0), Err(LimitError::NonPositiveAmount));
    assert_eq!(validate_record_amount(-5), Err(LimitError::NonPositiveAmount));
    assert_eq!(validate_limit(1), Ok(()));
    assert_eq!(validate_limit(0), Err(LimitError::InvalidLimit));
    assert_eq!(validate_limit(-5), Err(LimitError::InvalidLimit));
}

#[test]
fn fits_under_one_ceiling() {
    assert!(fits_under(None, i64::MAX, i64::MAX));
    assert!(fits_under(Some(500), 300, 200));
    assert!(!fits_under(Some(500), 300, 201));
    assert!(fits_under(Some(1), 1, 0));
    assert!(!fits_under(Some(1), 2, 0));
    assert!(!fits_under(Some(i64::MIN), i64::MAX, i64::MAX));
    assert!(fits_under(Some(i64::MAX), i64::MIN, i64::MAX));
}

#[test]
fn decision_reports_caps_and_totals_unchanged() {
    let cap = SpendCap {
        daily_limit_sats: Some(500),
        weekly_limit_sats: None,
        monthly_limit_sats: Some(10_000),
        annual_limit_sats: None,
    };
    let spends = WindowSpends {
        last_24h_sats: 300,
        last_7d_sats: 0,
        last_30d_sats: 9_900,
        last_365d_sats: 0,
    };
    assert_eq!(decide(&cap, &spends, 100), LimitCheckResult {
        allowed: true,
        daily_limit_sats: Some(500),
        weekly_limit_sats: None,
        monthly_limit_sats: Some(10_000),
        annual_limit_sats: None,
        spent_last_24h_sats: 300,
        spent_last_7d_sats: 0,
        spent_last_30d_sats: 9_900,
        spent_last_365d_sats: 0,
    });
    assert!(!decide(&cap, &spends, 101).allowed);
    assert!(!decide(&cap, &spends, 201).allowed);
    assert!(decide(&SpendCap::none(), &spends, i64::MAX).allowed);
    assert_eq!(LimitCheckResult::unlimited(), decide(&SpendCap::none(), &WindowSpends::zero(), 0));
}

#[test]
fn remaining_is_limit_less_spent() {
    assert_eq!(remaining_under(Some(500), 300), Some(200));
    assert_eq!(remaining_under(Some(500), 700), Some(-200));
    assert_eq!(remaining_under(None, 700), None);
    assert_eq!(remaining_under(Some(i64::MAX), -1), None);
    let summary = summarize(
        &SpendCap::none().with_limit(Window::Annual, 1_000),
        &WindowSpends { last_24h_sats: 1, last_7d_sats: 2, last_30d_sats: 3, last_365d_sats: 4 },
        &WindowCounts { last_24h: 5, last_7d: 6, last_30d: 7, last_365d: 8 },
    );
    assert_eq!(summary, SpendingSummary {
        daily_limit_sats: None,
        weekly_limit_sats: None,
        monthly_limit_sats: None,
        annual_limit_sats: Some(1_000),
        spent_last_24h_sats: 1,
        spent_last_7d_sats: 2,
        spent_last_30d_sats: 3,
        spent_last_365d_sats: 4,
        tx_count_last_24h: 5,
        tx_count_last_7d: 6,
        tx_count_last_30d: 7,
        tx_count_last_365d: 8,
    });
    assert_eq!(summary.remaining_sats(Window::Annual), Some(996));
    assert_eq!(summary.remaining_sats(Window::Daily), None);
}

#[test]
fn window_figures_can_be_set_one_by_one() {
    let mut spends = WindowSpends::zero();
    spends.set(Window::Weekly, 7);
    spends.set(Window::Annual, 365);
    assert_eq!(spends, WindowSpends {
        last_24h_sats: 0,
        last_7d_sats: 7,
        last_30d_sats: 0,
        last_365d_sats: 365,
    });
    assert_eq!(spends.spent(Window::Weekly), 7);
    assert_eq!(spends.spent(Window::Monthly), 0);
    let mut counts = WindowCounts::zero();
    counts.set(Window::Daily, 1);
    counts.set(Window::Monthly, 30);
    assert_eq!(counts, WindowCounts { last_24h: 1, last_7d: 0, last_30d: 30, last_365d: 0 });
}

#[test]
fn aggregate_selects_by_key_and_time() {
    let entries = vec![
        entry(1, 10, 100),
        entry(2, 20, 100),
        entry(1, 40, 99),
        entry(1, 80, 200),
        entry(1, 160, 201),
        entry(1, 320, 150),
    ];
    assert_eq!(aggregate(&entries, 1, 100, 200), Ok(WindowSpend { total_sats: 410, count: 3 }));
    assert_eq!(aggregate(&entries, 2, 100, 200), Ok(WindowSpend { total_sats: 20, count: 1 }));
    assert_eq!(aggregate(&entries, 3, 100, 200), Ok(WindowSpend { total_sats: 0, count: 0 }));
    assert_eq!(aggregate(&entries, 1, 201, 200), Ok(WindowSpend { total_sats: 0, count: 0 }));
    assert_eq!(aggregate(&Vec::new(), 1, 0, 0), Ok(WindowSpend { total_sats: 0, count: 0 }));
}

#[test]
fn aggregate_fails_exactly_when_the_sum_leaves_the_range() {
    let at_max = vec![entry(1, i64::MAX - 1, 0), entry(1, 1, 0)];
    assert_eq!(aggregate(&at_max, 1, 0, 0), Ok(WindowSpend { total_sats: i64::MAX, count: 2 }));
    let over = vec![entry(1, i64::MAX, 0), entry(1, 1, 0)];
    assert_eq!(aggregate(&over, 1, 0, 0), Err(StoreError::AmountOutOfRange));
    let back_in = vec![entry(1, i64::MAX, 0), entry(1, 1, 0), entry(1, -1, 0)];
    assert_eq!(aggregate(&back_in, 1, 0, 0), Ok(WindowSpend { total_sats: i64::MAX, count: 3 }));
    let under = vec![entry(1, i64::MIN, 0), entry(1, -1, 0)];
    assert_eq!(aggregate(&under, 1, 0, 0), Err(StoreError::AmountOutOfRange));
}

#[test]
fn discard_keeps_order_and_counts_what_went() {
    let mut entries = vec![
        entry(1, 1, 50),
        entry(2, 2, 10),
        entry(1, 3, 49),
        entry(3, 4, 51),
        entry(1, 5, 50),
    ];
    assert_eq!(discard_before(&mut entries, 50), 2);
    let kept: Vec<i64> = entries.iter().map(|e| e.amount_sats).collect();
    assert_eq!(kept, vec![1, 4, 5]);
    assert_eq!(discard_before(&mut entries, 50), 0);
    assert_eq!(discard_before(&mut entries, 52), 3);
    assert!(entries.is_empty());
}

#[test]
fn store_keeps_rows_sparse() {
    let mut store = LimitStore::new();
    assert_eq!(store.cap_rows(), 0);
    assert_eq!(store.get_cap(9), SpendCap::none());
    store.upsert_limit(9, Window::Daily, 5);
    store.upsert_limit(9, Window::Annual, 50);
    assert!(store.has_cap_row(9));
    store.clear_limit(9, Window::Daily);
    assert!(store.has_cap_row(9));
    assert_eq!(store.get_cap(9), SpendCap::none().with_limit(Window::Annual, 50));
    store.clear_limit(9, Window::Annual);
    assert!(!store.has_cap_row(9));
    assert_eq!(store.cap_rows(), 0);
    store.upsert_limit(9, Window::Weekly, 5);
    store.delete_cap(9);
    store.delete_cap(9);
    assert!(!store.has_cap_row(9));
}

#[test]
fn store_ledger_operations() {
    let mut store = LimitStore::new();
    store.insert_entry(LedgerEntry {
        api_key_id: 9,
        amount_sats: 11,
        transaction_id: Some("abc".to_string()),
        created_at: 1_000,
    });
    store.insert_entry(entry(9, 22, 2_000));
    assert_eq!(store.ledger_len(), 2);
    assert_eq!(
        store.aggregate_between(9, 1_000, 2_000),
        Ok(WindowSpend { total_sats: 33, count: 2 })
    );
    assert_eq!(
        store.aggregate_between(9, 1_001, 2_000),
        Ok(WindowSpend { total_sats: 22, count: 1 })
    );
    assert_eq!(store.delete_before(2_000), 1);
    assert_eq!(store.ledger_len(), 1);
    assert_eq!(
        store.aggregate_between(9, i128::MIN, i64::MAX),
        Ok(WindowSpend { total_sats: 22, count: 1 })
    );
}

#[test]
fn error_messages() {
    assert_eq!(LimitError::InvalidAmount.message(), "Negative amount not allowed");
    assert_eq!(LimitError::NonPositiveAmount.message(), "Amount must be positive");
    assert_eq!(LimitError::InvalidLimit.message(), "Invalid limit value (must be positive)");
    assert_eq!(
        LimitError::Store(StoreError::AmountOutOfRange).message(),
        "Database error: aggregated amount is out of range"
    );
    assert_eq!(StoreError::AmountOutOfRange.message(), "aggregated amount is out of range");
}

#[test]
fn sweeper_policy() {
    let sweeper = RetentionSweeper::new();
    assert_eq!(DEFAULT_RETENTION_HOURS, 400 * 24);
    assert_eq!(ANNUAL_WINDOW_HOURS, 365 * 24);
    assert_eq!(SWEEP_INTERVAL_SECS, 24 * 60 * 60);
    assert_eq!(sweeper.retention_hours(), 9_600);
    assert_eq!(sweeper.interval_secs(), 86_400);
    assert_eq!(sweeper.step(SweepEvent::Tick), SweepAction::Purge { retention_hours: 9_600 });
    assert_eq!(
        sweeper.step(SweepEvent::Completed { deleted_rows: 12 }),
        SweepAction::ReportPurged { deleted_rows: 12 }
    );
    assert_eq!(sweeper.step(SweepEvent::Failed), SweepAction::ReportFailure);
}

#[test]
fn sweeper_refuses_horizons_inside_the_annual_window() {
    assert!(RetentionSweeper::with_retention_hours(8_760).is_none());
    assert!(RetentionSweeper::with_retention_hours(0).is_none());
    assert!(RetentionSweeper::with_retention_hours(-1).is_none());
    let sweeper = RetentionSweeper::with_retention_hours(8_761).unwrap();
    assert_eq!(sweeper.retention_hours(), 8_761);
    assert!(RetentionSweeper::with_retention_hours(i64::MAX).is_some());
}

#[test]
fn sweep_never_changes_what_windows_report() {
    let now: i64 = 1_700_000_000;
    let mut limits = Limits::new();
    limits.set_annual_limit(5, 1_000).unwrap();
    limits.record_spending(5, 100, None, now - 365 * 86_400).unwrap();
    limits.record_spending(5, 200, None, now - 365 * 86_400 - 1_800).unwrap();
    limits.record_spending(5, 400, None, now - 8_761 * 3_600 - 1).unwrap();
    let before = limits.check_spending_limit(5, 900, now).unwrap();
    let sweeper = RetentionSweeper::with_retention_hours(8_761).unwrap();
    assert_eq!(sweeper.sweep(&mut limits, now), SweepAction::ReportPurged { deleted_rows: 1 });
    assert_eq!(limits.check_spending_limit(5, 900, now).unwrap(), before);
    assert_eq!(before.spent_last_365d_sats, 100);
    assert_eq!(sweeper.sweep(&mut limits, now), SweepAction::ReportPurged { deleted_rows: 0 });
}

#[test]
fn server_config_defaults() {
    assert_eq!(default_port(), 5397);
    assert_eq!(default_api_key_auth_header(), "X-API-KEY");
    assert_eq!(default_jwks_url(), "http://localhost:4456/.well-known/jwks.json");
    assert_eq!(default_internal_auth_secret(), "dev-only-insecure-secret");
    let config = ServerConfig::default();
    assert_eq!(config.port, 5397);
    assert_eq!(config.api_key_auth_header, "X-API-KEY");
    assert_eq!(config.jwks_url, "http://localhost:4456/.well-known/jwks.json");
    assert_eq!(config.internal_auth_secret, "dev-only-insecure-secret");
}

#[test]
fn key_id_is_read_from_uuid_text() {
    let id: u128 = 0x550e8400_e29b_41d4_a716_446655440000;
    assert_eq!(parse_api_key_id("550e8400-e29b-41d4-a716-446655440000").unwrap(), id);
    assert_eq!(parse_api_key_id("550E8400-E29B-41D4-A716-446655440000").unwrap(), id);
    assert_eq!(parse_api_key_id("550e8400e29b41d4a716446655440000").unwrap(), id);
    assert_eq!(parse_api_key_id("{550e8400-e29b-41d4-a716-446655440000}").unwrap(), id);
    assert_eq!(parse_api_key_id("urn:uuid:550e8400-e29b-41d4-a716-446655440000").unwrap(), id);
    assert_eq!(parse_api_key_id("00000000-0000-0000-0000-000000000001").unwrap(), 1);
    assert_eq!(parse_api_key_id("ffffffff-ffff-ffff-ffff-ffffffffffff").unwrap(), u128::MAX);
}

#[test]
fn text_that_is_no_uuid_is_refused_with_the_text() {
    for text in ["", "not-a-key", "550e8400-e29b-41d4-a716-44665544000", "550e8400-e29b-41d4-a716-44665544000g", "1"] {
        let refused = parse_api_key_id(text).unwrap_err();
        assert_eq!(refused.text, text);
    }
}

#[test]
fn key_id_from_what_was_read() {
    assert_eq!(key_id_from("anything", Some(7)).unwrap(), 7);
    assert_eq!(key_id_from("anything", None).unwrap_err().text, "anything");
}
