//! Error taxonomy of the structuring layer.

use vstd::prelude::*;

verus! {

/// Errors surfaced by the contract-structuring core.
///
/// `InvalidRange` and `InvalidCurve` report out-of-range encoder and
/// payout-curve parameters; `InvalidInput` carries a human-readable
/// reason for malformed client input (bad hex, bad key, missing field);
/// `NotFound` reports an id that is absent after filtering;
/// `UpstreamFailure` stands for an error reported by an external
/// collaborator (price feed, oracle, engine, store); and
/// `PersistenceFailure` marks a snapshot transaction that could not
/// commit.
#[derive(Debug, Clone)]
pub enum SolError {
    InvalidRange,
    InvalidCurve,
    InvalidInput(String),
    NotFound,
    UpstreamFailure,
    PersistenceFailure,
}

impl SolError {
    /// A short stable label for each variant, for display at the boundary.
    pub fn label(&self) -> (r: &'static str)
        ensures
            r@ == self.label_spec(),
    {
        match self {
            SolError::InvalidRange => "invalid range",
            SolError::InvalidCurve => "invalid curve",
            SolError::InvalidInput(_) => "invalid input",
            SolError::NotFound => "not found",
            SolError::UpstreamFailure => "upstream failure",
            SolError::PersistenceFailure => "persistence failure",
        }
    }

    pub open spec fn label_spec(&self) -> Seq<char> {
        match self {
            SolError::InvalidRange => "invalid range"@,
            SolError::InvalidCurve => "invalid curve"@,
            SolError::InvalidInput(_) => "invalid input"@,
            SolError::NotFound => "not found"@,
            SolError::UpstreamFailure => "upstream failure"@,
            SolError::PersistenceFailure => "persistence failure"@,
        }
    }
}

} // verus!
