//! Counterparty public keys, parsed through the `bitcoin` crate's
//! secp256k1 bindings.

use vstd::prelude::*;
use std::str::FromStr;

verus! {

/// A secp256k1 public key, opaque to this layer; it identifies the
/// counterparty of a contract proposal.
#[verifier::external_type_specification]
#[verifier::external_body]
pub struct ExPublicKey(bitcoin::secp256k1::PublicKey);

/// The secp256k1 error type, carried opaquely and mapped to the
/// library's own error by callers.
#[verifier::external_type_specification]
#[verifier::external_body]
pub struct ExSecpError(bitcoin::secp256k1::Error);

/// Relies on `bitcoin::secp256k1::PublicKey::from_str`: it accepts
/// only a 66-digit (compressed) or 130-digit (uncompressed) hex
/// encoding of a valid curve point.
#[verifier::external_body]
pub(crate) fn parse_public_key(s: &String) -> (r: Result<
    bitcoin::secp256k1::PublicKey,
    bitcoin::secp256k1::Error,
>)
    ensures
        r is Ok ==> s@.len() == 66 || s@.len() == 130,
{
    bitcoin::secp256k1::PublicKey::from_str(s.as_str())
}

} // verus!
