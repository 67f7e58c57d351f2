use sons_of_liberty::contract::{
    assemble_contract_input, create_enum_contract, create_parlay_contract,
    oracle_input_from_announcements, AnnouncementInfo, ContractDescriptor, OracleInput,
};
use sons_of_liberty::errors::SolError;

fn announcement() -> AnnouncementInfo {
    AnnouncementInfo {
        oracle_public_key: "a1b2c3".to_string(),
        event_id: "event-7".to_string(),
    }
}

#[test]
fn enum_contract_carries_outcomes_and_oracle() {
    let c = create_enum_contract(
        vec!["yes".to_string(), "no".to_string()],
        300000,
        200000,
        4,
        announcement(),
    )
    .unwrap();
    assert_eq!(c.offer_collateral, 300000);
    assert_eq!(c.accept_collateral, 200000);
    assert_eq!(c.fee_rate, 4);
    assert_eq!(c.contract_infos.len(), 1);
    let info = &c.contract_infos[0];
    match &info.contract_descriptor {
        ContractDescriptor::Enumerated { outcomes } => {
            assert_eq!(outcomes, &vec!["yes".to_string(), "no".to_string()]);
        }
        ContractDescriptor::Numerical { .. } => panic!("expected an enumerated descriptor"),
    }
    assert_eq!(info.oracles.public_keys, vec!["a1b2c3".to_string()]);
    assert_eq!(info.oracles.event_id, "event-7");
    assert_eq!(info.oracles.threshold, 1);
}

fn invalid_input_reason(r: Result<sons_of_liberty::contract::ContractInput, SolError>) -> String {
    match r {
        Err(SolError::InvalidInput(reason)) => reason,
        _ => panic!("expected an invalid-input error"),
    }
}

#[test]
fn enum_contract_requires_outcomes_fee_and_collateral() {
    let r = create_enum_contract(vec![], 1, 1, 1, announcement());
    assert_eq!(invalid_input_reason(r), "at least one outcome is required");
    let r = create_enum_contract(vec!["x".to_string()], 1, 1, 0, announcement());
    assert_eq!(invalid_input_reason(r), "fee rate must be positive");
    let r = create_enum_contract(vec!["x".to_string()], 0, 0, 1, announcement());
    assert_eq!(invalid_input_reason(r), "total collateral must be positive");
}

#[test]
fn parlay_contract_builds_the_expected_descriptor() {
    let c = create_parlay_contract(None, 300000, 200000, 2, announcement()).unwrap();
    assert_eq!(c.contract_infos.len(), 1);
    let info = &c.contract_infos[0];
    match &info.contract_descriptor {
        ContractDescriptor::Numerical { payout_function, rounding_intervals, oracle_numeric_info } => {
            assert_eq!(payout_function.pieces.len(), 2);
            let linear = &payout_function.pieces[0];
            assert_eq!(linear.points[0].event_outcome, 0);
            assert_eq!(linear.points[0].outcome_payout, 0);
            assert_eq!(linear.points[1].event_outcome, 10000);
            assert_eq!(linear.points[1].outcome_payout, 500000);
            let flat = &payout_function.pieces[1];
            assert_eq!(flat.points[1].event_outcome, 16383);
            assert_eq!(flat.points[1].outcome_payout, 500000);

            assert_eq!(rounding_intervals.intervals.len(), 1);
            assert_eq!(rounding_intervals.intervals[0].begin_interval, 0);
            assert_eq!(rounding_intervals.intervals[0].rounding_mod, 1);

            assert_eq!(oracle_numeric_info.base, 2);
            assert_eq!(oracle_numeric_info.digit_counts, vec![14]);
        }
        ContractDescriptor::Enumerated { .. } => panic!("expected a numerical descriptor"),
    }
    assert_eq!(info.oracles.threshold, 1);
    assert_eq!(info.oracles.event_id, "event-7");
}

#[test]
fn parlay_cap_errors() {
    let r = create_parlay_contract(Some(0), 1, 1, 1, announcement());
    assert!(matches!(r, Err(SolError::InvalidRange)));
    // 16383 encodes to exactly 14 digits, so the cap cannot lie
    // strictly below the maximum encodable value.
    let r = create_parlay_contract(Some(16383), 1, 1, 1, announcement());
    assert!(matches!(r, Err(SolError::InvalidCurve)));
    let r = create_parlay_contract(Some(10000), 1, 1, 0, announcement());
    assert!(matches!(r, Err(SolError::InvalidInput(_))));
}

#[test]
fn announcements_become_oracle_input() {
    let anns = vec![
        AnnouncementInfo { oracle_public_key: "k1".to_string(), event_id: "e1".to_string() },
        AnnouncementInfo { oracle_public_key: "k2".to_string(), event_id: "e2".to_string() },
    ];
    let o = oracle_input_from_announcements(&anns, 2).unwrap();
    assert_eq!(o.public_keys, vec!["k1".to_string(), "k2".to_string()]);
    assert_eq!(o.event_id, "e1");
    assert_eq!(o.threshold, 2);

    assert!(matches!(
        oracle_input_from_announcements(&anns, 0),
        Err(SolError::InvalidInput(_))
    ));
    assert!(matches!(
        oracle_input_from_announcements(&anns, 3),
        Err(SolError::InvalidInput(_))
    ));
    assert!(matches!(
        oracle_input_from_announcements(&vec![], 1),
        Err(SolError::InvalidInput(_))
    ));
}

#[test]
fn assembler_validates_oracle_identifiers() {
    let descriptor = ContractDescriptor::Enumerated { outcomes: vec!["w".to_string()] };
    let bad = OracleInput { public_keys: vec![], event_id: "e".to_string(), threshold: 1 };
    let r = assemble_contract_input(descriptor, 1, 1, 1, bad);
    assert_eq!(invalid_input_reason(r), "oracle public keys must not be empty");

    let descriptor = ContractDescriptor::Enumerated { outcomes: vec!["w".to_string()] };
    let bad = OracleInput {
        public_keys: vec!["k".to_string()],
        event_id: "e".to_string(),
        threshold: 2,
    };
    let r = assemble_contract_input(descriptor, 1, 1, 1, bad);
    assert_eq!(invalid_input_reason(r), "oracle threshold out of bounds");
}

#[test]
fn error_labels_are_stable() {
    assert_eq!(SolError::InvalidRange.label(), "invalid range");
    assert_eq!(SolError::InvalidCurve.label(), "invalid curve");
    assert_eq!(SolError::InvalidInput("x".to_string()).label(), "invalid input");
    assert_eq!(SolError::NotFound.label(), "not found");
    assert_eq!(SolError::UpstreamFailure.label(), "upstream failure");
    assert_eq!(SolError::PersistenceFailure.label(), "persistence failure");
}
