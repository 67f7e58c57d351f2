use sons_of_liberty::balance::{
    compute_snapshot, period_duration_secs, SnapshotStore, TimePeriod, WalletBalance,
};
use sons_of_liberty::errors::SolError;
use sons_of_liberty::job::{EngineHandle, SnapshotJob};

#[test]
fn period_durations_are_fixed_length() {
    assert_eq!(period_duration_secs(TimePeriod::Day), 86400);
    assert_eq!(period_duration_secs(TimePeriod::Week), 604800);
    assert_eq!(period_duration_secs(TimePeriod::Month), 2592000);
    assert_eq!(period_duration_secs(TimePeriod::Year), 31536000);
}

#[test]
fn snapshot_values_usd_fields_at_the_spot_price() {
    // 500 000 sats at $65 000.00 per bitcoin: 0.005 btc = $325.00.
    let s = compute_snapshot(
        500000,
        100000,
        -2500,
        1,
        6500000,
        "node-a".to_string(),
        "signet".to_string(),
        1700000000,
    );
    assert_eq!(s.bitcoin_balance_sats, 500000);
    assert_eq!(s.bitcoin_balance_usd, 32500);
    assert_eq!(s.bitcoin_price, 6500000);
    assert_eq!(s.contract_balance_sats, 100000);
    assert_eq!(s.contract_balance_usd, 6500);
    assert_eq!(s.pnl_sats, -2500);
    // 2 500 sats are $1.625; the cent value truncates toward zero.
    assert_eq!(s.pnl_usd, -162);
    assert_eq!(s.num_contracts, 1);
    assert_eq!(s.created_at, 1700000000);
    assert_eq!(s.updated_at, 1700000000);
}

#[test]
fn unrepresentable_usd_degrades_to_zero_sats_stay_exact() {
    let s = compute_snapshot(
        i64::MAX as u64,
        0,
        0,
        0,
        i64::MAX as u64,
        "n".to_string(),
        "regtest".to_string(),
        0,
    );
    assert_eq!(s.bitcoin_balance_usd, 0);
    assert_eq!(s.bitcoin_balance_sats, i64::MAX);
}

fn snapshot_at(created_at: i64) -> sons_of_liberty::balance::BalanceSnapshot {
    compute_snapshot(
        1000,
        0,
        0,
        0,
        6000000,
        "n".to_string(),
        "signet".to_string(),
        created_at,
    )
}

#[test]
fn day_window_keeps_only_last_24_hours_in_order() {
    let mut store = SnapshotStore::new();
    let d: i64 = 1700000000;
    for t in [d - 200000, d - 86401, d - 86400, d - 3600, d - 10, d] {
        store.persist(snapshot_at(t));
    }
    let rows = store.get_history(TimePeriod::Day, d);
    let times: Vec<i64> = rows.iter().map(|r| r.created_at).collect();
    assert_eq!(times, vec![d - 86400, d - 3600, d - 10, d]);
}

#[test]
fn empty_window_is_empty_not_an_error() {
    let store = SnapshotStore::new();
    let rows = store.get_history(TimePeriod::Week, 1700000000);
    assert!(rows.is_empty());

    let mut store = SnapshotStore::new();
    store.persist(snapshot_at(100));
    let rows = store.get_history(TimePeriod::Day, 1700000000);
    assert!(rows.is_empty());
}

#[test]
fn history_is_sorted_even_when_persisted_out_of_order() {
    let mut store = SnapshotStore::new();
    let d: i64 = 1700000000;
    for t in [d - 10, d - 500, d - 3, d - 86000, d - 1] {
        store.persist(snapshot_at(t));
    }
    let rows = store.get_history(TimePeriod::Day, d);
    let times: Vec<i64> = rows.iter().map(|r| r.created_at).collect();
    assert_eq!(times, vec![d - 86000, d - 500, d - 10, d - 3, d - 1]);
}

#[test]
fn persisted_snapshot_round_trips_through_year_history() {
    let mut store = SnapshotStore::new();
    let created_at: i64 = 1700000000;
    let row = compute_snapshot(
        500000,
        100000,
        -2500,
        1,
        6500000,
        "node-a".to_string(),
        "signet".to_string(),
        created_at,
    );
    store.persist(row);

    let rows = store.get_history(TimePeriod::Year, created_at);
    assert_eq!(rows.len(), 1);
    let got = &rows[0];
    assert_eq!(got.bitcoin_balance_sats, 500000);
    assert_eq!(got.bitcoin_price, 6500000);
    assert_eq!(got.contract_balance_sats, 100000);
    assert_eq!(got.pnl_sats, -2500);
    assert_eq!(got.num_contracts, 1);
    assert_eq!(got.name, "node-a");
    assert_eq!(got.network, "signet");
    assert_eq!(got.created_at, created_at);
}

#[test]
fn snapshot_job_runs_to_done_and_persists_once() {
    let mut store = SnapshotStore::new();
    let job = SnapshotJob::start();
    let job = job.on_price(Ok(6500000));
    let job = job.on_balance(Ok(WalletBalance {
        confirmed_sats: 500000,
        contract_sats: 100000,
        pnl_sats: -2500,
    }));
    let job = job.on_count(Ok(3));
    let job = job.persist(&mut store, "node-a".to_string(), "signet".to_string(), 1700000000);
    assert!(matches!(job, SnapshotJob::Done));
    assert_eq!(store.len(), 1);
    let rows = store.get_history(TimePeriod::Day, 1700000000);
    assert_eq!(rows.len(), 1);
    assert_eq!(rows[0].num_contracts, 3);
}

#[test]
fn failed_fetch_aborts_before_persist() {
    let job = SnapshotJob::start();
    let job = job.on_price(Err(SolError::UpstreamFailure));
    assert!(matches!(job, SnapshotJob::Failed { reason: SolError::UpstreamFailure }));

    let job = SnapshotJob::start().on_price(Ok(1)).on_balance(Err(SolError::UpstreamFailure));
    assert!(matches!(job, SnapshotJob::Failed { reason: SolError::UpstreamFailure }));

    let job = SnapshotJob::start()
        .on_price(Ok(1))
        .on_balance(Ok(WalletBalance { confirmed_sats: 0, contract_sats: 0, pnl_sats: 0 }))
        .on_count(Err(SolError::UpstreamFailure));
    assert!(matches!(job, SnapshotJob::Failed { reason: SolError::UpstreamFailure }));
}

#[test]
fn engine_handle_initializes_exactly_once() {
    let mut handle = EngineHandle::new();
    let first = handle.get_or_init(41);
    assert_eq!(first, 41);
    // Every later caller observes the installed instance, never its own.
    for caller in 0..8u64 {
        let seen = handle.get_or_init(100 + caller);
        assert_eq!(seen, 41);
    }
    assert_eq!(handle, EngineHandle::Ready { instance: 41 });
}
