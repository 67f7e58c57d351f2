//! Assembly of a signable contract proposal from a payout/outcome
//! descriptor, collateral and fee parameters, and oracle identifiers.

use vstd::prelude::*;
use vstd::arithmetic::power2::lemma2_to64;

use crate::errors::SolError;
use crate::oracle::{
    calculate_oracle_parameters, lemma_oracle_parameters_unique, valid_oracle_parameters,
    OracleNumericInfo, OracleParameters,
};
use crate::payout::{build_payout_curve, PayoutFunction, RoundingInterval, RoundingIntervals};

verus! {

/// The default normalized outcome cap used when a parlay request
/// leaves it unspecified.
pub open spec fn default_max_normalized_value() -> u64 {
    10000
}

/// The normalized cap a parlay request resolves to: the one supplied,
/// else the default.
pub open spec fn resolved_cap(max_normalized_value: Option<u64>) -> u64 {
    match max_normalized_value {
        Some(v) => v,
        None => default_max_normalized_value(),
    }
}

/// What one oracle announcement yields to this layer: the announcing
/// oracle's public key and the announced event's id.
#[derive(Debug, Clone)]
pub struct AnnouncementInfo {
    pub oracle_public_key: String,
    pub event_id: String,
}

/// The oracle identifiers a contract proposal is bound to.
#[derive(Debug, Clone)]
pub struct OracleInput {
    pub public_keys: Vec<String>,
    pub event_id: String,
    pub threshold: u32,
}

/// At least one public key, and a threshold within `1..=keys`.
pub open spec fn oracle_input_valid(o: OracleInput) -> bool {
    &&& o.public_keys.len() >= 1
    &&& 1 <= o.threshold <= o.public_keys.len()
}

/// The payout/outcome description of one leg of a proposal: either an
/// enumeration of outcome strings or a numeric payout curve with its
/// rounding and oracle encoding parameters.
#[derive(Debug, Clone)]
pub enum ContractDescriptor {
    Enumerated { outcomes: Vec<String> },
    Numerical {
        payout_function: PayoutFunction,
        rounding_intervals: RoundingIntervals,
        oracle_numeric_info: OracleNumericInfo,
    },
}

/// Validity of a descriptor against the proposal's total collateral:
/// an enumeration names at least one outcome; a numeric descriptor
/// carries a well-formed curve whose final settlement equals the total
/// collateral, well-formed rounding, and a well-formed oracle
/// encoding.
pub open spec fn descriptor_valid(d: ContractDescriptor, total: int) -> bool {
    match d {
        ContractDescriptor::Enumerated { outcomes } => outcomes.len() >= 1,
        ContractDescriptor::Numerical { payout_function, rounding_intervals, oracle_numeric_info } => {
            &&& payout_function.well_formed(payout_function.final_outcome())
            &&& payout_function.final_payout() == total
            &&& rounding_intervals.well_formed()
            &&& oracle_numeric_info.well_formed()
        },
    }
}

/// Runtime check of `descriptor_valid`.
pub fn check_descriptor(d: &ContractDescriptor, total: u64) -> (b: bool)
    ensures
        b == descriptor_valid(*d, total as int),
{
    match d {
        ContractDescriptor::Enumerated { outcomes } => outcomes.len() >= 1,
        ContractDescriptor::Numerical { payout_function, rounding_intervals, oracle_numeric_info } => {
            if !payout_function.check() {
                return false;
            }
            let last = payout_function.pieces.len() - 1;
            if payout_function.pieces[last].points[1].outcome_payout != total {
                return false;
            }
            rounding_intervals.check() && oracle_numeric_info.check()
        },
    }
}

/// One leg of a proposal: a descriptor bound to its oracles.
#[derive(Debug, Clone)]
pub struct ContractInputInfo {
    pub contract_descriptor: ContractDescriptor,
    pub oracles: OracleInput,
}

/// A signable contract proposal: both parties' collateral, the fee
/// rate, and at least one leg.
#[derive(Debug, Clone)]
pub struct ContractInput {
    pub offer_collateral: u64,
    pub accept_collateral: u64,
    pub fee_rate: u64,
    pub contract_infos: Vec<ContractInputInfo>,
}

/// Validity of a whole proposal: positive fee rate, positive total
/// collateral, and at least one leg, each leg valid against the total.
pub open spec fn contract_input_valid(c: ContractInput) -> bool {
    &&& c.fee_rate > 0
    &&& c.offer_collateral + c.accept_collateral > 0
    &&& c.contract_infos.len() >= 1
    &&& forall|i: int|
        0 <= i < c.contract_infos.len() ==> oracle_input_valid(
            (#[trigger] c.contract_infos[i]).oracles,
        ) && descriptor_valid(
            c.contract_infos[i].contract_descriptor,
            c.offer_collateral + c.accept_collateral,
        )
}

/// Builds the oracle identifiers of a proposal from announcements:
/// one public key per announcement, the first announcement's event id,
/// and the given signing threshold. Fails with `InvalidInput` when no
/// announcement is given or the threshold is out of bounds.
pub fn oracle_input_from_announcements(announcements: &Vec<AnnouncementInfo>, threshold: u32) -> (r:
    Result<OracleInput, SolError>)
    ensures
        (r is Ok) == (announcements@.len() >= 1 && 1 <= threshold <= announcements@.len()),
        announcements@.len() == 0 ==> (r matches Err(e) && e matches SolError::InvalidInput(m)
            && m@ == "at least one oracle announcement is required"@),
        announcements@.len() >= 1 && !(1 <= threshold <= announcements@.len()) ==> (r matches Err(e)
            && e matches SolError::InvalidInput(m) && m@ == "oracle threshold out of bounds"@),
        r matches Ok(o) ==> {
            &&& oracle_input_valid(o)
            &&& o.public_keys@.len() == announcements@.len()
            &&& forall|i: int|
                0 <= i < announcements@.len() ==> #[trigger] o.public_keys@[i]@ == announcements@[i].oracle_public_key@
            &&& o.event_id@ == announcements@[0].event_id@
            &&& o.threshold == threshold
        },
        r matches Err(e) ==> e is InvalidInput,
{
    if announcements.len() == 0 {
        return Err(
            SolError::InvalidInput("at least one oracle announcement is required".to_string()),
        );
    }
    if threshold < 1 || threshold as usize > announcements.len() {
        return Err(SolError::InvalidInput("oracle threshold out of bounds".to_string()));
    }
    let mut public_keys: Vec<String> = Vec::new();
    let mut i: usize = 0;
    while i < announcements.len()
        invariant
            i <= announcements@.len(),
            public_keys@.len() == i,
            forall|j: int|
                0 <= j < i ==> #[trigger] public_keys@[j]@ == announcements@[j].oracle_public_key@,
        decreases announcements@.len() - i,
    {
        public_keys.push(announcements[i].oracle_public_key.clone());
        i = i + 1;
    }
    let event_id = announcements[0].event_id.clone();
    Ok(OracleInput { public_keys, event_id, threshold })
}

/// Wraps a descriptor and its oracles into a signable proposal,
/// validating what the proposal owes: a positive fee rate, a positive
/// total collateral, valid oracle identifiers, and a descriptor valid
/// against the total. Fails with `InvalidInput` naming the violated
/// condition; nothing is handed to the engine on failure.
pub fn assemble_contract_input(
    descriptor: ContractDescriptor,
    offer_collateral: u64,
    accept_collateral: u64,
    fee_rate: u64,
    oracles: OracleInput,
) -> (r: Result<ContractInput, SolError>)
    requires
        offer_collateral + accept_collateral <= u64::MAX,
    ensures
        (r is Ok) == (fee_rate > 0 && offer_collateral + accept_collateral > 0
            && oracle_input_valid(oracles) && descriptor_valid(
            descriptor,
            offer_collateral + accept_collateral,
        )),
        r matches Ok(c) ==> {
            &&& c.offer_collateral == offer_collateral
            &&& c.accept_collateral == accept_collateral
            &&& c.fee_rate == fee_rate
            &&& c.contract_infos@.len() == 1
            &&& c.contract_infos@[0].contract_descriptor == descriptor
            &&& c.contract_infos@[0].oracles == oracles
            &&& contract_input_valid(c)
        },
        r matches Err(e) ==> e is InvalidInput,
        fee_rate == 0 ==> (r matches Err(e) && e matches SolError::InvalidInput(m) && m@
            == "fee rate must be positive"@),
        fee_rate > 0 && offer_collateral + accept_collateral == 0 ==> (r matches Err(e)
            && e matches SolError::InvalidInput(m) && m@ == "total collateral must be positive"@),
        fee_rate > 0 && offer_collateral + accept_collateral > 0 && oracles.public_keys@.len() == 0
            ==> (r matches Err(e) && e matches SolError::InvalidInput(m) && m@
            == "oracle public keys must not be empty"@),
        fee_rate > 0 && offer_collateral + accept_collateral > 0 && oracles.public_keys@.len() >= 1
            && !(1 <= oracles.threshold <= oracles.public_keys@.len()) ==> (r matches Err(e)
            && e matches SolError::InvalidInput(m) && m@ == "oracle threshold out of bounds"@),
        fee_rate > 0 && offer_collateral + accept_collateral > 0 && oracle_input_valid(oracles)
            && !descriptor_valid(descriptor, offer_collateral + accept_collateral) ==> (
        r matches Err(e) && e matches SolError::InvalidInput(m) && m@
            == "descriptor does not match the collateral"@),
{
    if fee_rate == 0 {
        return Err(SolError::InvalidInput("fee rate must be positive".to_string()));
    }
    let total: u64 = offer_collateral + accept_collateral;
    if total == 0 {
        return Err(SolError::InvalidInput("total collateral must be positive".to_string()));
    }
    if oracles.public_keys.len() == 0 {
        return Err(SolError::InvalidInput("oracle public keys must not be empty".to_string()));
    }
    if oracles.threshold < 1 || oracles.threshold as usize > oracles.public_keys.len() {
        return Err(SolError::InvalidInput("oracle threshold out of bounds".to_string()));
    }
    if !check_descriptor(&descriptor, total) {
        return Err(
            SolError::InvalidInput("descriptor does not match the collateral".to_string()),
        );
    }
    let info = ContractInputInfo { contract_descriptor: descriptor, oracles };
    let mut contract_infos: Vec<ContractInputInfo> = Vec::new();
    contract_infos.push(info);
    Ok(ContractInput { offer_collateral, accept_collateral, fee_rate, contract_infos })
}

/// Builds the proposal of an enumerated contract: the outcome strings
/// become the descriptor, the announcement's key and event id its
/// oracle identifiers with a threshold of one.
pub fn create_enum_contract(
    outcomes: Vec<String>,
    offer_collateral: u64,
    accept_collateral: u64,
    fee_rate: u64,
    announcement: AnnouncementInfo,
) -> (r: Result<ContractInput, SolError>)
    requires
        offer_collateral + accept_collateral <= u64::MAX,
    ensures
        (r is Ok) == (outcomes@.len() >= 1 && fee_rate > 0 && offer_collateral + accept_collateral
            > 0),
        r matches Ok(c) ==> {
            &&& contract_input_valid(c)
            &&& c.offer_collateral == offer_collateral
            &&& c.accept_collateral == accept_collateral
            &&& c.fee_rate == fee_rate
            &&& c.contract_infos@.len() == 1
            &&& (c.contract_infos@[0].contract_descriptor matches ContractDescriptor::Enumerated {
                outcomes: o,
            } && o == outcomes)
            &&& c.contract_infos@[0].oracles.public_keys@.len() == 1
            &&& c.contract_infos@[0].oracles.public_keys@[0]@ == announcement.oracle_public_key@
            &&& c.contract_infos@[0].oracles.event_id@ == announcement.event_id@
            &&& c.contract_infos@[0].oracles.threshold == 1
        },
        r matches Err(e) ==> e is InvalidInput,
        outcomes@.len() == 0 ==> (r matches Err(e) && e matches SolError::InvalidInput(m) && m@
            == "at least one outcome is required"@),
{
    if outcomes.len() == 0 {
        return Err(SolError::InvalidInput("at least one outcome is required".to_string()));
    }
    let descriptor = ContractDescriptor::Enumerated { outcomes };
    let mut public_keys: Vec<String> = Vec::new();
    public_keys.push(announcement.oracle_public_key);
    let oracles = OracleInput { public_keys, event_id: announcement.event_id, threshold: 1 };
    assemble_contract_input(descriptor, offer_collateral, accept_collateral, fee_rate, oracles)
}

/// The shape the parlay builder gives a numeric descriptor for cap
/// `n`, total collateral `total` and oracle parameters `p`: a curve
/// worth 0 at outcome 0, the full collateral at the cap and at every
/// outcome up to the maximum encodable value; a unit rounding interval
/// at outcome 0; and a single base-2 oracle with `p`'s digit count.
pub open spec fn parlay_descriptor_shape(
    d: ContractDescriptor,
    n: u64,
    total: int,
    p: OracleParameters,
) -> bool {
    match d {
        ContractDescriptor::Numerical { payout_function, rounding_intervals, oracle_numeric_info } => {
            &&& payout_function.payout_at(0) == 0
            &&& payout_function.payout_at(n as int) == total
            &&& (forall|x: int|
                n <= x <= p.max_oracle_value ==> payout_function.payout_at(x) == total)
            &&& rounding_intervals.intervals@ == seq![
                RoundingInterval { begin_interval: 0, rounding_mod: 1 },
            ]
            &&& oracle_numeric_info.base == 2
            &&& oracle_numeric_info.digit_counts@ == seq![p.digit_count]
        },
        _ => false,
    }
}

/// Builds the proposal of a parlay contract: encodes the normalized
/// cap (defaulting to 10 000) into oracle digits, builds the two-piece
/// saturating payout curve over the two parties' collateral, fixes a
/// unit rounding interval at outcome 0, and binds the announcement
/// with a threshold of one.
///
/// Fails with `InvalidRange` when the cap is zero, `InvalidCurve` when
/// the cap does not lie strictly below the maximum encodable value,
/// and `InvalidInput` when the fee rate or the total collateral is
/// zero.
pub fn create_parlay_contract(
    max_normalized_value: Option<u64>,
    offer_collateral: u64,
    accept_collateral: u64,
    fee_rate: u64,
    announcement: AnnouncementInfo,
) -> (r: Result<ContractInput, SolError>)
    requires
        offer_collateral + accept_collateral <= u64::MAX,
    ensures
        (r is Ok) == ({
            let n = resolved_cap(max_normalized_value);
            n > 0 && fee_rate > 0 && offer_collateral + accept_collateral > 0 && (exists|
                p: OracleParameters,
            |
                valid_oracle_parameters(n, p) && n < p.max_oracle_value)
        }),
        r matches Ok(c) ==> {
            let n = resolved_cap(max_normalized_value);
            let total = offer_collateral + accept_collateral;
            &&& contract_input_valid(c)
            &&& c.offer_collateral == offer_collateral
            &&& c.accept_collateral == accept_collateral
            &&& c.fee_rate == fee_rate
            &&& c.contract_infos@.len() == 1
            &&& c.contract_infos@[0].oracles.public_keys@.len() == 1
            &&& c.contract_infos@[0].oracles.public_keys@[0]@ == announcement.oracle_public_key@
            &&& c.contract_infos@[0].oracles.event_id@ == announcement.event_id@
            &&& c.contract_infos@[0].oracles.threshold == 1
            &&& exists|p: OracleParameters|
                valid_oracle_parameters(n, p) && parlay_descriptor_shape(
                    c.contract_infos@[0].contract_descriptor,
                    n,
                    total,
                    p,
                )
        },
        resolved_cap(max_normalized_value) == 0 ==> (r matches Err(k) && k is InvalidRange),
        ({
            let n = resolved_cap(max_normalized_value);
            n > 0 && (forall|p: OracleParameters|
                valid_oracle_parameters(n, p) ==> n >= p.max_oracle_value)
        }) ==> (r matches Err(k) && k is InvalidCurve),
        r matches Err(k) ==> (k is InvalidRange || k is InvalidCurve || k is InvalidInput),
{
    let n: u64 = match max_normalized_value {
        Some(v) => v,
        None => 10000,
    };
    let params = match calculate_oracle_parameters(n) {
        Ok(p) => p,
        Err(k) => {
            return Err(k);
        },
    };
    let payout_function = match build_payout_curve(
        offer_collateral,
        accept_collateral,
        n,
        params,
    ) {
        Ok(f) => f,
        Err(k) => {
            proof {
                assert forall|p: OracleParameters| valid_oracle_parameters(n, p) implies n
                    >= p.max_oracle_value by {
                    lemma_oracle_parameters_unique(n, params, p);
                }
            }
            return Err(k);
        },
    };
    proof {
        lemma2_to64();
        assert(params.digit_count > 0);
    }
    let mut intervals: Vec<RoundingInterval> = Vec::new();
    intervals.push(RoundingInterval { begin_interval: 0, rounding_mod: 1 });
    let rounding_intervals = RoundingIntervals { intervals };
    let mut digit_counts: Vec<u32> = Vec::new();
    digit_counts.push(params.digit_count);
    let oracle_numeric_info = OracleNumericInfo { base: 2, digit_counts };
    proof {
        assert(rounding_intervals.intervals@ =~= seq![
            RoundingInterval { begin_interval: 0, rounding_mod: 1 },
        ]);
        assert(oracle_numeric_info.digit_counts@ =~= seq![params.digit_count]);
        assert(rounding_intervals.well_formed());
        assert(oracle_numeric_info.well_formed());
    }
    let descriptor = ContractDescriptor::Numerical {
        payout_function,
        rounding_intervals,
        oracle_numeric_info,
    };
    let ghost pre_descriptor = descriptor;
    let mut public_keys: Vec<String> = Vec::new();
    public_keys.push(announcement.oracle_public_key);
    let oracles = OracleInput { public_keys, event_id: announcement.event_id, threshold: 1 };
    let r = assemble_contract_input(
        descriptor,
        offer_collateral,
        accept_collateral,
        fee_rate,
        oracles,
    );
    proof {
        assert(parlay_descriptor_shape(
            pre_descriptor,
            n,
            offer_collateral + accept_collateral,
            params,
        ));
    }
    r
}

} // verus!
