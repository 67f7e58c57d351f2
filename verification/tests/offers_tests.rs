use sons_of_liberty::errors::SolError;
use sons_of_liberty::lifecycle::{ContractRecord, ContractState};
use sons_of_liberty::offers::{
    decode_offer_id, encode_contract_id, prepare_accept_offer, prepare_send_offer, query_offers,
    AcceptAction, SendAction,
};

#[test]
fn short_offer_id_is_rejected_without_engine_call() {
    // Decodes to 2 bytes, fewer than the 32 an id must have.
    let action = prepare_accept_offer(&"abcd".to_string());
    match action {
        AcceptAction::Reject { error: SolError::InvalidInput(reason) } => {
            assert_eq!(reason, "offer id must decode to 32 bytes");
        }
        _ => panic!("a short id must be rejected before any engine call"),
    }
}

#[test]
fn valid_offer_id_reaches_the_engine() {
    let hex_id = "000102030405060708090a0b0c0d0e0f101112131415161718191a1b1c1d1e1f";
    let action = prepare_accept_offer(&hex_id.to_string());
    match action {
        AcceptAction::CallEngine { offer_id } => {
            let expected: Vec<u8> = (0u8..32).collect();
            assert_eq!(offer_id, expected);
        }
        AcceptAction::Reject { .. } => panic!("valid id must reach the engine"),
    }
}

#[test]
fn odd_and_non_hex_ids_are_invalid_input() {
    for bad in ["abc".to_string(), "zz".repeat(32)] {
        match decode_offer_id(&bad) {
            Err(SolError::InvalidInput(reason)) => {
                assert_eq!(reason, "offer id must be a hex string");
            }
            _ => panic!("a malformed id must be invalid input"),
        }
    }
}

#[test]
fn long_offer_id_is_invalid_input() {
    let r = decode_offer_id(&"00".repeat(33));
    assert!(matches!(r, Err(SolError::InvalidInput(_))));
}

#[test]
fn uppercase_hex_decodes_too() {
    let r = decode_offer_id(&"AB".repeat(32)).unwrap();
    assert_eq!(r, vec![0xabu8; 32]);
}

#[test]
fn contract_id_encodes_to_lowercase_hex() {
    let id = vec![0x00u8, 0xff, 0x12, 0xa0];
    assert_eq!(encode_contract_id(&id), "00ff12a0");
}

#[test]
fn id_encoding_round_trips() {
    let id: Vec<u8> = (0u8..32).map(|b| b.wrapping_mul(7)).collect();
    let encoded = encode_contract_id(&id);
    let decoded = decode_offer_id(&encoded).unwrap();
    assert_eq!(decoded, id);
}

#[test]
fn valid_counterparty_key_reaches_the_engine() {
    // The secp256k1 generator point, compressed.
    let key = "0279be667ef9dcbbac55a06295ce870b07029bfcdb2dce28d959f2815b16f81798";
    let action = prepare_send_offer(&key.to_string());
    assert!(matches!(action, SendAction::CallEngine { .. }));
}

#[test]
fn malformed_counterparty_key_is_rejected() {
    let action = prepare_send_offer(&"not-a-key".to_string());
    assert!(matches!(action, SendAction::Reject { error: SolError::InvalidInput(_) }));
    // Right length, but not a curve point.
    let action = prepare_send_offer(&"00".repeat(33));
    assert!(matches!(action, SendAction::Reject { error: SolError::InvalidInput(_) }));
}

#[test]
fn offer_query_returns_all_or_one() {
    let offers = vec![
        ContractRecord {
            id: "aa".to_string(),
            state: ContractState::Offered,
            counterparty: "02aa".to_string(),
            pnl_sats: 0,
        },
        ContractRecord {
            id: "bb".to_string(),
            state: ContractState::Offered,
            counterparty: "02bb".to_string(),
            pnl_sats: 0,
        },
    ];
    let all = query_offers(&offers, None).unwrap();
    assert_eq!(all.len(), 2);
    let one = query_offers(&offers, Some("bb".to_string())).unwrap();
    assert_eq!(one.len(), 1);
    assert_eq!(one[0].id, "bb");
    let none = query_offers(&offers, Some("cc".to_string()));
    assert!(matches!(none, Err(SolError::NotFound)));
}
