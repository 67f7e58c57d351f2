//! Piecewise payout curves: the mapping from an oracle-attested numeric
//! outcome to a settlement amount, built from the two parties' collateral
//! and the encoded oracle range.

use vstd::prelude::*;
use vstd::arithmetic::div_mod::lemma_div_multiples_vanish;

use crate::errors::SolError;
use crate::oracle::OracleParameters;

verus! {

/// One vertex of a payout curve piece.
#[derive(Debug, Clone, Copy, PartialEq, Eq, Structural)]
pub struct PayoutPoint {
    /// Oracle outcome at this vertex.
    pub event_outcome: u64,
    /// Settlement amount owed to the offering party at this outcome.
    pub outcome_payout: u64,
    /// Sub-unit precision carried alongside the payout; unused by the
    /// linear curves this layer builds, always zero here.
    pub extra_precision: u16,
}

/// A polynomial payout piece given by its vertices; the pieces this
/// layer builds are linear, with exactly two vertices.
#[derive(Debug, Clone, PartialEq, Eq)]
pub struct PayoutCurvePiece {
    pub points: Vec<PayoutPoint>,
}

/// An ordered sequence of contiguous payout pieces.
#[derive(Debug, Clone, PartialEq, Eq)]
pub struct PayoutFunction {
    pub pieces: Vec<PayoutCurvePiece>,
}

impl PayoutCurvePiece {
    /// Vertices are strictly increasing in `event_outcome`.
    pub open spec fn monotonic(self) -> bool {
        forall|i: int| 0 <= i < self.points.len() - 1 ==> (#[trigger] self.points[i]).event_outcome
            < self.points[i + 1].event_outcome
    }

    /// A linear piece: exactly two vertices, strictly ordered.
    pub open spec fn linear(self) -> bool {
        self.points.len() == 2 && self.monotonic()
    }

    /// Value of a linear piece at outcome `x`, by integer interpolation
    /// between its two vertices.
    pub open spec fn value_at(self, x: int) -> int
        recommends
            self.linear(),
    {
        let p0 = self.points[0];
        let p1 = self.points[1];
        p0.outcome_payout + (x - p0.event_outcome) * (p1.outcome_payout - p0.outcome_payout) / (
        p1.event_outcome - p0.event_outcome)
    }

    /// Whether outcome `x` falls in the closed range of this piece.
    pub open spec fn covers(self, x: int) -> bool
        recommends
            self.linear(),
    {
        self.points[0].event_outcome <= x <= self.points[1].event_outcome
    }
}

/// Value at outcome `x` of an ordered run of pieces: the value of the
/// first piece whose range contains `x`, or 0 when none does.
pub open spec fn payout_of(pieces: Seq<PayoutCurvePiece>, x: int) -> int
    decreases pieces.len(),
{
    if pieces.len() == 0 {
        0
    } else if pieces[0].covers(x) {
        pieces[0].value_at(x)
    } else {
        payout_of(pieces.skip(1), x)
    }
}

/// One rounding step: outcomes from `begin_interval` on are rounded to
/// multiples of `rounding_mod`.
#[derive(Debug, Clone, Copy, PartialEq, Eq, Structural)]
pub struct RoundingInterval {
    pub begin_interval: u64,
    pub rounding_mod: u64,
}

/// An ordered sequence of rounding steps covering the outcome range.
#[derive(Debug, Clone, PartialEq, Eq)]
pub struct RoundingIntervals {
    pub intervals: Vec<RoundingInterval>,
}

impl RoundingIntervals {
    /// At least one interval, the first beginning at outcome 0, the
    /// starts strictly increasing, every modulus positive.
    pub open spec fn well_formed(self) -> bool {
        &&& self.intervals.len() >= 1
        &&& self.intervals[0].begin_interval == 0
        &&& forall|i: int|
            0 <= i < self.intervals.len() - 1 ==> (#[trigger] self.intervals[i]).begin_interval
                < self.intervals[i + 1].begin_interval
        &&& forall|i: int|
            0 <= i < self.intervals.len() ==> (#[trigger] self.intervals[i]).rounding_mod >= 1
    }

    /// Runtime check of `well_formed`.
    pub fn check(&self) -> (b: bool)
        ensures
            b == self.well_formed(),
    {
        if self.intervals.len() == 0 {
            return false;
        }
        if self.intervals[0].begin_interval != 0 {
            return false;
        }
        let mut i: usize = 0;
        while i < self.intervals.len()
            invariant
                i <= self.intervals@.len(),
                forall|j: int|
                    0 <= j < i && j < self.intervals@.len() - 1 ==> (
                    #[trigger] self.intervals@[j]).begin_interval < self.intervals@[j
                        + 1].begin_interval,
                forall|j: int|
                    0 <= j < i ==> (#[trigger] self.intervals@[j]).rounding_mod >= 1,
            decreases self.intervals@.len() - i,
        {
            if self.intervals[i].rounding_mod < 1 {
                return false;
            }
            if i + 1 < self.intervals.len() && self.intervals[i].begin_interval >= self.intervals[i
                + 1].begin_interval {
                return false;
            }
            i = i + 1;
        }
        true
    }
}

impl PayoutFunction {
    /// The outcome at which the last piece ends.
    pub open spec fn final_outcome(self) -> int
        recommends
            self.pieces.len() >= 1,
            self.pieces[self.pieces.len() - 1].points.len() >= 2,
    {
        self.pieces[self.pieces.len() - 1].points[1].event_outcome as int
    }

    /// The settlement amount at the end of the curve; for the
    /// saturating curves this layer builds, the curve's maximum payout.
    pub open spec fn final_payout(self) -> int
        recommends
            self.pieces.len() >= 1,
            self.pieces[self.pieces.len() - 1].points.len() >= 2,
    {
        self.pieces[self.pieces.len() - 1].points[1].outcome_payout as int
    }

    /// Runtime check that the curve is well formed over its own final
    /// outcome: linear pieces, contiguous, starting at outcome 0.
    pub fn check(&self) -> (b: bool)
        ensures
            b == self.well_formed(self.final_outcome()),
    {
        if self.pieces.len() == 0 {
            return false;
        }
        if self.pieces[0].points.len() != 2 || self.pieces[0].points[0].event_outcome != 0 {
            return false;
        }
        let mut i: usize = 0;
        while i < self.pieces.len()
            invariant
                i <= self.pieces@.len(),
                forall|j: int| 0 <= j < i ==> (#[trigger] self.pieces@[j]).linear(),
                forall|j: int|
                    0 <= j < i && j < self.pieces@.len() - 1 ==> (
                    #[trigger] self.pieces@[j]).points[1] == self.pieces@[j + 1].points[0],
            decreases self.pieces@.len() - i,
        {
            let piece = &self.pieces[i];
            if piece.points.len() != 2 {
                return false;
            }
            if piece.points[0].event_outcome >= piece.points[1].event_outcome {
                return false;
            }
            assert(self.pieces@[i as int].linear());
            if i + 1 < self.pieces.len() {
                let next = &self.pieces[i + 1];
                if next.points.len() != 2 {
                    return false;
                }
                let a = piece.points[1];
                let b = next.points[0];
                if a != b {
                    return false;
                }
            }
            i = i + 1;
        }
        true
    }
}

impl PayoutFunction {
    /// Every piece is linear, consecutive pieces share their boundary
    /// vertex, the first piece starts at outcome 0 and the last ends at
    /// `max_value`: together the pieces cover `[0, max_value]` with no
    /// gap and no overlap beyond the shared boundaries.
    pub open spec fn well_formed(self, max_value: int) -> bool {
        &&& self.pieces.len() >= 1
        &&& forall|i: int| 0 <= i < self.pieces.len() ==> (#[trigger] self.pieces[i]).linear()
        &&& forall|i: int|
            0 <= i < self.pieces.len() - 1 ==> (#[trigger] self.pieces[i]).points[1]
                == self.pieces[i + 1].points[0]
        &&& self.pieces[0].points[0].event_outcome == 0
        &&& self.pieces[self.pieces.len() - 1].points[1].event_outcome == max_value
    }

    /// Value of the curve at outcome `x`.
    pub open spec fn payout_at(self, x: int) -> int {
        payout_of(self.pieces@, x)
    }
}

/// Builds the two-piece payout curve of a linear contract: settlement
/// scales linearly from `(0, 0)` to `(max_normalized_value, total)`,
/// where `total` is the sum of both parties' collateral, and saturates
/// at `total` for outcomes up to `params.max_oracle_value`.
///
/// Fails with `InvalidCurve` when `max_normalized_value` is zero (the
/// first piece's vertices would not be monotonic in `event_outcome`)
/// or does not lie strictly below `params.max_oracle_value`.
pub fn build_payout_curve(
    offer_collateral: u64,
    accept_collateral: u64,
    max_normalized_value: u64,
    params: OracleParameters,
) -> (r: Result<PayoutFunction, SolError>)
    requires
        offer_collateral + accept_collateral <= u64::MAX,
    ensures
        r is Ok <==> 0 < max_normalized_value < params.max_oracle_value,
        r matches Err(e) ==> e is InvalidCurve,
        r matches Ok(f) ==> {
            let total = (offer_collateral + accept_collateral) as u64;
            &&& f.well_formed(params.max_oracle_value as int)
            &&& f.pieces.len() == 2
            &&& f.pieces@[0].points@ == seq![
                (PayoutPoint { event_outcome: 0, outcome_payout: 0, extra_precision: 0 }),
                (PayoutPoint {
                    event_outcome: max_normalized_value,
                    outcome_payout: total,
                    extra_precision: 0,
                }),
            ]
            &&& f.pieces@[1].points@ == seq![
                (PayoutPoint {
                    event_outcome: max_normalized_value,
                    outcome_payout: total,
                    extra_precision: 0,
                }),
                (PayoutPoint {
                    event_outcome: params.max_oracle_value,
                    outcome_payout: total,
                    extra_precision: 0,
                }),
            ]
            &&& f.final_outcome() == params.max_oracle_value
            &&& f.final_payout() == total
            &&& f.payout_at(0) == 0
            &&& f.payout_at(max_normalized_value as int) == total
            &&& forall|x: int|
                max_normalized_value <= x <= params.max_oracle_value ==> f.payout_at(x) == total
        },
{
    if max_normalized_value == 0 || max_normalized_value >= params.max_oracle_value {
        return Err(SolError::InvalidCurve);
    }
    let total: u64 = offer_collateral + accept_collateral;
    let origin = PayoutPoint { event_outcome: 0, outcome_payout: 0, extra_precision: 0 };
    let cap = PayoutPoint {
        event_outcome: max_normalized_value,
        outcome_payout: total,
        extra_precision: 0,
    };
    let saturation = PayoutPoint {
        event_outcome: params.max_oracle_value,
        outcome_payout: total,
        extra_precision: 0,
    };
    let linear_piece = PayoutCurvePiece { points: vec![origin, cap] };
    let flat_piece = PayoutCurvePiece { points: vec![cap, saturation] };
    let f = PayoutFunction { pieces: vec![linear_piece, flat_piece] };
    proof {
        let n = max_normalized_value as int;
        let m = params.max_oracle_value as int;
        let t = total as int;
        let ps = f.pieces@;
        assert(ps[0].points@ =~= seq![origin, cap]);
        assert(ps[1].points@ =~= seq![cap, saturation]);
        assert(ps[0].covers(0));
        assert(ps[0].value_at(0) == 0 + 0 * t / n);
        assert(ps[0].covers(n));
        lemma_div_multiples_vanish(t, n);
        assert(n * t == t * n) by (nonlinear_arith);
        assert(ps[0].value_at(n) == (n - 0) * (t - 0) / (n - 0));
        assert(f.payout_at(n) == t);
        assert forall|x: int| n <= x <= m implies f.payout_at(x) == t by {
            if x <= n {
                assert(ps[0].covers(x));
            } else {
                assert(!ps[0].covers(x));
                let rest = ps.skip(1);
                assert(rest[0] == ps[1]);
                assert(rest[0].covers(x));
                assert(rest[0].value_at(x) == t + (x - n) * (t - t) / (m - n));
                assert((x - n) * 0 == 0) by (nonlinear_arith);
                assert(payout_of(rest, x) == t);
            }
        }
    }
    Ok(f)
}

} // verus!
