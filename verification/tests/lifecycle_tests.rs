use sons_of_liberty::errors::SolError;
use sons_of_liberty::lifecycle::{
    list_contracts, query_contracts, state_matches, ContractFilter, ContractRecord, ContractState,
};

fn record(id: &str, state: ContractState) -> ContractRecord {
    ContractRecord {
        id: id.to_string(),
        state,
        counterparty: "02aa".to_string(),
        pnl_sats: 0,
    }
}

fn sample_records() -> Vec<ContractRecord> {
    vec![
        record("a1", ContractState::Offered),
        record("b2", ContractState::Accepted),
        record("c3", ContractState::Signed),
        record("d4", ContractState::Confirmed),
        record("e5", ContractState::PreClosed),
        record("f6", ContractState::Closed),
        record("g7", ContractState::Refunded),
        record("h8", ContractState::Rejected),
        record("i9", ContractState::FailedAccept),
        record("j0", ContractState::FailedSign),
    ]
}

#[test]
fn filter_table_is_exhaustive() {
    let active = [
        ContractState::Accepted,
        ContractState::Signed,
        ContractState::Confirmed,
        ContractState::PreClosed,
    ];
    let failed = [
        ContractState::Refunded,
        ContractState::Rejected,
        ContractState::FailedAccept,
        ContractState::FailedSign,
    ];
    let all = [
        ContractState::Offered,
        ContractState::Accepted,
        ContractState::Signed,
        ContractState::Confirmed,
        ContractState::PreClosed,
        ContractState::Closed,
        ContractState::Refunded,
        ContractState::Rejected,
        ContractState::FailedAccept,
        ContractState::FailedSign,
    ];
    for s in all {
        assert!(state_matches(s, ContractFilter::All));
        assert_eq!(state_matches(s, ContractFilter::Active), active.contains(&s));
        assert_eq!(state_matches(s, ContractFilter::Closed), s == ContractState::Closed);
        assert_eq!(state_matches(s, ContractFilter::Failed), failed.contains(&s));
    }
}

#[test]
fn all_is_duplicate_free_superset_of_every_filter() {
    let records = sample_records();
    let all = list_contracts(&records, Some(ContractFilter::All));
    assert_eq!(all.len(), records.len());
    for i in 0..all.len() {
        for j in 0..i {
            assert_ne!(all[i].id, all[j].id);
        }
    }
    for f in [ContractFilter::Active, ContractFilter::Closed, ContractFilter::Failed] {
        let listed = list_contracts(&records, Some(f));
        for c in &listed {
            assert!(all.iter().any(|a| a.id == c.id));
        }
    }
}

#[test]
fn filters_select_expected_ids() {
    let records = sample_records();
    let active: Vec<String> =
        list_contracts(&records, Some(ContractFilter::Active)).into_iter().map(|c| c.id).collect();
    assert_eq!(active, vec!["b2", "c3", "d4", "e5"]);

    let closed: Vec<String> =
        list_contracts(&records, Some(ContractFilter::Closed)).into_iter().map(|c| c.id).collect();
    assert_eq!(closed, vec!["f6"]);

    let failed: Vec<String> =
        list_contracts(&records, Some(ContractFilter::Failed)).into_iter().map(|c| c.id).collect();
    assert_eq!(failed, vec!["g7", "h8", "i9", "j0"]);
}

#[test]
fn missing_filter_defaults_to_all() {
    let records = sample_records();
    let listed = list_contracts(&records, None);
    assert_eq!(listed.len(), records.len());
}

#[test]
fn query_by_id_returns_single_record() {
    let records = sample_records();
    let r = query_contracts(&records, None, Some("d4".to_string())).unwrap();
    assert_eq!(r.len(), 1);
    assert_eq!(r[0].id, "d4");
    assert_eq!(r[0].state, ContractState::Confirmed);
}

#[test]
fn query_by_unknown_id_is_not_found() {
    let records = sample_records();
    let r = query_contracts(&records, None, Some("zz".to_string()));
    assert!(matches!(r, Err(SolError::NotFound)));
}

#[test]
fn query_by_id_respects_the_filter() {
    let records = sample_records();
    // "a1" is Offered, which no narrower category contains.
    let r = query_contracts(&records, Some(ContractFilter::Active), Some("a1".to_string()));
    assert!(matches!(r, Err(SolError::NotFound)));
}
