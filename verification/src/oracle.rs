//! Oracle numeric encoder: converts a maximum normalized outcome value
//! into a base-2 digit count and the maximum representable oracle value.

use vstd::prelude::*;
use vstd::arithmetic::power2::{pow2, lemma_pow2_unfold, lemma_pow2_strictly_increases, lemma2_to64};

use crate::errors::SolError;

verus! {

/// Digit count and maximum representable value for a base-2 numeric
/// oracle event covering outcomes up to `max_normalized_value`.
#[derive(Debug, Clone, Copy, PartialEq, Eq, Structural)]
pub struct OracleParameters {
    /// Smallest number of base-2 digits such that
    /// `2^digit_count - 1 >= max_normalized_value`.
    pub digit_count: u32,
    /// `2^digit_count - 1`, the largest outcome the digits can encode.
    pub max_oracle_value: u64,
}

/// The parameters are the ones the encoder owes for `v`: the digit
/// count is sufficient, minimal, and the maximum value is determined
/// by it.
pub open spec fn valid_oracle_parameters(v: u64, p: OracleParameters) -> bool {
    &&& pow2(p.digit_count as nat) - 1 >= v
    &&& p.digit_count > 0 ==> pow2((p.digit_count - 1) as nat) - 1 < v
    &&& p.max_oracle_value == pow2(p.digit_count as nat) - 1
}

/// How a set of numeric oracles encodes outcomes: a common base and
/// one digit count per oracle.
#[derive(Debug, Clone, PartialEq, Eq)]
pub struct OracleNumericInfo {
    pub base: u64,
    pub digit_counts: Vec<u32>,
}

impl OracleNumericInfo {
    /// A base of at least 2 and a positive digit count for each of at
    /// least one oracle.
    pub open spec fn well_formed(self) -> bool {
        &&& self.base >= 2
        &&& self.digit_counts.len() >= 1
        &&& forall|i: int| 0 <= i < self.digit_counts.len() ==> #[trigger] self.digit_counts[i] > 0
    }

    /// Runtime check of `well_formed`.
    pub fn check(&self) -> (b: bool)
        ensures
            b == self.well_formed(),
    {
        if self.base < 2 || self.digit_counts.len() == 0 {
            return false;
        }
        let mut i: usize = 0;
        while i < self.digit_counts.len()
            invariant
                i <= self.digit_counts@.len(),
                forall|j: int| 0 <= j < i ==> #[trigger] self.digit_counts@[j] > 0,
            decreases self.digit_counts@.len() - i,
        {
            if self.digit_counts[i] == 0 {
                return false;
            }
            i = i + 1;
        }
        true
    }
}

/// The encoder's output is determined by its input: two valid
/// parameter records for the same maximum are the same record.
pub proof fn lemma_oracle_parameters_unique(v: u64, p1: OracleParameters, p2: OracleParameters)
    requires
        valid_oracle_parameters(v, p1),
        valid_oracle_parameters(v, p2),
    ensures
        p1 == p2,
{
    if p1.digit_count < p2.digit_count {
        if p1.digit_count < p2.digit_count - 1 {
            lemma_pow2_strictly_increases(p1.digit_count as nat, (p2.digit_count - 1) as nat);
        }
        assert(false);
    }
    if p2.digit_count < p1.digit_count {
        if p2.digit_count < p1.digit_count - 1 {
            lemma_pow2_strictly_increases(p2.digit_count as nat, (p1.digit_count - 1) as nat);
        }
        assert(false);
    }
}

/// Computes the smallest digit count `d` with `2^d - 1 >= max_normalized_value`
/// together with `2^d - 1` itself. Rejects a zero maximum with
/// `InvalidRange`.
pub fn calculate_oracle_parameters(max_normalized_value: u64) -> (r: Result<
    OracleParameters,
    SolError,
>)
    ensures
        r is Ok <==> max_normalized_value > 0,
        r matches Err(e) ==> e is InvalidRange,
        r matches Ok(p) ==> valid_oracle_parameters(max_normalized_value, p),
{
    if max_normalized_value == 0 {
        return Err(SolError::InvalidRange);
    }
    let mut d: u32 = 0;
    let mut p: u128 = 1;
    proof {
        lemma2_to64();
    }
    while p - 1 < max_normalized_value as u128
        invariant
            p == pow2(d as nat),
            p >= 1,
            d <= 64,
            d > 0 ==> pow2((d - 1) as nat) - 1 < max_normalized_value,
            p <= 2 * max_normalized_value,
        decreases 2 * max_normalized_value as int - p as int,
    {
        proof {
            lemma2_to64();
            assert(d < 64);
            lemma_pow2_unfold((d + 1) as nat);
        }
        p = p * 2;
        d = d + 1;
    }
    proof {
        lemma2_to64();
        if d > 0 {
            if d - 1 >= 64 {
                if d - 1 > 64 {
                    lemma_pow2_strictly_increases(64, (d - 1) as nat);
                }
                assert(false);
            }
            if d < 64 {
                lemma_pow2_strictly_increases(d as nat, 64);
            }
        }
    }
    let max_oracle_value: u64 = (p - 1) as u64;
    Ok(OracleParameters { digit_count: d, max_oracle_value })
}

} // verus!
