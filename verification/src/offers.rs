//! The offer dispatcher: validation and id handling for sending and
//! accepting contract offers against a counterparty. The external DLC
//! engine performs the protocol itself; this layer decides, for each
//! request, whether the engine is called and with what.

use vstd::prelude::*;

use crate::errors::SolError;
use crate::hexcodec::{
    bytes_of_hex, decode_hex, encode_hex, hex_of, is_hex_seq, lemma_bytes_of_hex_len,
};
use crate::keys::parse_public_key;
use crate::lifecycle::ContractRecord;

verus! {

/// Number of bytes in a contract identifier.
pub open spec fn contract_id_len() -> int {
    32
}

/// What the accept operation does with a request: forward the decoded
/// 32-byte offer id to the engine, or reject the request without any
/// engine call.
pub enum AcceptAction {
    CallEngine { offer_id: Vec<u8> },
    Reject { error: SolError },
}

/// Decodes a hex offer id into its 32 bytes. Fails with
/// `InvalidInput` when the string is not hex or does not decode to
/// exactly 32 bytes.
pub fn decode_offer_id(offer_id_hex: &String) -> (r: Result<Vec<u8>, SolError>)
    ensures
        (r is Ok) == (offer_id_hex@.len() == 64 && is_hex_seq(offer_id_hex@)),
        r matches Ok(b) ==> b@ == bytes_of_hex(offer_id_hex@) && b@.len() == contract_id_len(),
        !(offer_id_hex@.len() % 2 == 0 && is_hex_seq(offer_id_hex@)) ==> (r matches Err(e)
            && e matches SolError::InvalidInput(m) && m@ == "offer id must be a hex string"@),
        offer_id_hex@.len() % 2 == 0 && is_hex_seq(offer_id_hex@) && offer_id_hex@.len() != 64 ==> (
        r matches Err(e) && e matches SolError::InvalidInput(m) && m@
            == "offer id must decode to 32 bytes"@),
{
    proof {
        lemma_bytes_of_hex_len(offer_id_hex@);
    }
    match decode_hex(offer_id_hex) {
        Ok(bytes) => {
            if bytes.len() == 32 {
                Ok(bytes)
            } else {
                Err(SolError::InvalidInput("offer id must decode to 32 bytes".to_string()))
            }
        },
        Err(_) => Err(SolError::InvalidInput("offer id must be a hex string".to_string())),
    }
}

/// Resolves an accept request: the engine is called exactly when the
/// offer id is a hex string of 64 digits (32 bytes); any other input
/// is rejected as `InvalidInput` with no engine call.
pub fn prepare_accept_offer(offer_id_hex: &String) -> (r: AcceptAction)
    ensures
        (r is CallEngine) == (offer_id_hex@.len() == 64 && is_hex_seq(offer_id_hex@)),
        r matches AcceptAction::CallEngine { offer_id } ==> offer_id@ == bytes_of_hex(
            offer_id_hex@,
        ) && offer_id@.len() == contract_id_len(),
        r matches AcceptAction::Reject { error } ==> error is InvalidInput,
{
    match decode_offer_id(offer_id_hex) {
        Ok(offer_id) => AcceptAction::CallEngine { offer_id },
        Err(error) => AcceptAction::Reject { error },
    }
}

/// What the send operation does with a request: forward the proposal
/// to the engine addressed at the parsed counterparty key, or reject
/// the request without any engine call.
pub enum SendAction {
    CallEngine { counterparty: bitcoin::secp256k1::PublicKey },
    Reject { error: SolError },
}

/// Turns the outcome of parsing the counterparty key into the send
/// decision: a parsed key is forwarded, a parse failure is rejected as
/// `InvalidInput`.
pub fn send_action_of_parse(
    parsed: Result<bitcoin::secp256k1::PublicKey, bitcoin::secp256k1::Error>,
) -> (r: SendAction)
    ensures
        parsed matches Ok(k) ==> (r matches SendAction::CallEngine { counterparty } && counterparty
            == k),
        parsed is Err ==> (r matches SendAction::Reject { error } && error matches SolError::InvalidInput(m)
            && m@ == "public key is invalid"@),
{
    match parsed {
        Ok(counterparty) => SendAction::CallEngine { counterparty },
        Err(_) => SendAction::Reject {
            error: SolError::InvalidInput("public key is invalid".to_string()),
        },
    }
}

/// Resolves a send request: parses the counterparty key and decides
/// whether the engine is called. The parse is the engine's own key
/// validation; whatever it returns, a malformed key is rejected as
/// `InvalidInput` and never reaches the engine, and a key can parse
/// only from a 66- or 130-digit hex string.
pub fn prepare_send_offer(counterparty_hex: &String) -> (r: SendAction)
    ensures
        r is CallEngine ==> counterparty_hex@.len() == 66 || counterparty_hex@.len() == 130,
        r matches SendAction::Reject { error } ==> (error matches SolError::InvalidInput(m) && m@
            == "public key is invalid"@),
{
    send_action_of_parse(parse_public_key(counterparty_hex))
}

/// Hex-encodes a contract or offer id for display, as the send and
/// accept responses report it: two digits per byte, and decoding the
/// result gives the id back.
pub fn encode_contract_id(id: &Vec<u8>) -> (r: String)
    ensures
        r@ == hex_of(id@),
        r@.len() == 2 * id@.len(),
        is_hex_seq(r@),
        bytes_of_hex(r@) == id@,
{
    proof {
        crate::hexcodec::lemma_hex_round_trip(id@);
    }
    encode_hex(id)
}

/// The offer query of the HTTP surface: all open offers, or, when an
/// id is supplied, the single offer carrying it or `NotFound`.
pub fn query_offers(offers: &Vec<ContractRecord>, id: Option<String>) -> (r: Result<
    Vec<ContractRecord>,
    SolError,
>)
    ensures
        match id {
            None => r matches Ok(v) && v@ == offers@,
            Some(want) => {
                &&& r matches Ok(v) ==> v@.len() == 1 && offers@.contains(v@[0]) && v@[0].id@
                    == want@
                &&& (r is Err) == (forall|i: int|
                    0 <= i < offers@.len() ==> (#[trigger] offers@[i]).id@ != want@)
                &&& r matches Err(e) ==> e is NotFound
            },
        },
{
    proof {
        crate::lifecycle::lemma_filtered_all_is_identity(offers@);
    }
    match id {
        None => Ok(crate::lifecycle::list_contracts(offers, None)),
        Some(want) => {
            let found = crate::lifecycle::find_contract(offers, &want)?;
            let mut out: Vec<ContractRecord> = Vec::new();
            out.push(found);
            Ok(out)
        },
    }
}

} // verus!
