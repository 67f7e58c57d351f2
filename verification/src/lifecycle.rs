//! Contract lifecycle states, filter categories, and the list/query
//! operation over records fetched from the external contract store.

use vstd::prelude::*;

use crate::errors::SolError;

verus! {

/// The closed set of lifecycle states a tracked contract can be in.
#[derive(Debug, Clone, Copy, PartialEq, Eq, Structural)]
pub enum ContractState {
    Offered,
    Accepted,
    Signed,
    Confirmed,
    PreClosed,
    Closed,
    Refunded,
    Rejected,
    FailedAccept,
    FailedSign,
}

/// A filter category resolving to a set of lifecycle states.
///
/// `Active`, `Closed` and `Failed` are pairwise disjoint; `All` admits
/// every state. `Offered` contracts appear only under `All`: open
/// offers are listed through the offer query, not the contract filter.
#[derive(Debug, Clone, Copy, PartialEq, Eq, Structural)]
pub enum ContractFilter {
    All,
    Active,
    Closed,
    Failed,
}

/// The single source of truth mapping a filter category to its state
/// set.
pub open spec fn state_in_filter(s: ContractState, f: ContractFilter) -> bool {
    match f {
        ContractFilter::All => true,
        ContractFilter::Active => s == ContractState::Accepted || s == ContractState::Signed || s
            == ContractState::Confirmed || s == ContractState::PreClosed,
        ContractFilter::Closed => s == ContractState::Closed,
        ContractFilter::Failed => s == ContractState::Refunded || s == ContractState::FailedAccept
            || s == ContractState::FailedSign || s == ContractState::Rejected,
    }
}

/// Runtime form of `state_in_filter`, checked exhaustively against it.
pub fn state_matches(s: ContractState, f: ContractFilter) -> (r: bool)
    ensures
        r == state_in_filter(s, f),
{
    match f {
        ContractFilter::All => true,
        ContractFilter::Active => matches!(
            s,
            ContractState::Accepted
                | ContractState::Signed
                | ContractState::Confirmed
                | ContractState::PreClosed
        ),
        ContractFilter::Closed => matches!(s, ContractState::Closed),
        ContractFilter::Failed => matches!(
            s,
            ContractState::Refunded
                | ContractState::FailedAccept
                | ContractState::FailedSign
                | ContractState::Rejected
        ),
    }
}

/// The display form of a contract row owned by the external DLC
/// engine's store: its id, lifecycle state, and plain display fields.
#[derive(Debug, Clone)]
pub struct ContractRecord {
    /// Hex-encoded contract id.
    pub id: String,
    pub state: ContractState,
    /// Hex-encoded public key of the counterparty.
    pub counterparty: String,
    /// PnL of the contract in satoshis.
    pub pnl_sats: i64,
}

/// No two records carry the same id.
pub open spec fn unique_ids(s: Seq<ContractRecord>) -> bool {
    forall|i: int, j: int| 0 <= i < j < s.len() ==> (#[trigger] s[i]).id@ != (#[trigger] s[j]).id@
}

/// The subsequence of `s` whose states fall in filter `f`, in order.
pub open spec fn filtered(s: Seq<ContractRecord>, f: ContractFilter) -> Seq<ContractRecord>
    decreases s.len(),
{
    if s.len() == 0 {
        Seq::empty()
    } else {
        let rest = filtered(s.drop_last(), f);
        if state_in_filter(s.last().state, f) {
            rest.push(s.last())
        } else {
            rest
        }
    }
}

/// Every record of a filtered listing comes from the underlying run.
pub proof fn lemma_filtered_from_source(s: Seq<ContractRecord>, f: ContractFilter)
    ensures
        forall|k: int|
            0 <= k < filtered(s, f).len() ==> s.contains(#[trigger] filtered(s, f)[k])
                && state_in_filter(filtered(s, f)[k].state, f),
    decreases s.len(),
{
    if s.len() > 0 {
        lemma_filtered_from_source(s.drop_last(), f);
        assert forall|k: int| 0 <= k < filtered(s, f).len() implies s.contains(
            #[trigger] filtered(s, f)[k],
        ) && state_in_filter(filtered(s, f)[k].state, f) by {
            let sub = filtered(s.drop_last(), f);
            if k < sub.len() {
                let r = sub[k];
                assert(s.drop_last().contains(r));
                let i = choose|i: int| 0 <= i < s.drop_last().len() && s.drop_last()[i] == r;
                assert(s[i] == r);
            } else {
                assert(s[s.len() - 1] == filtered(s, f)[k]);
            }
        }
    }
}

/// Filtering with `All` keeps every record, in order.
pub proof fn lemma_filtered_all_is_identity(s: Seq<ContractRecord>)
    ensures
        filtered(s, ContractFilter::All) == s,
    decreases s.len(),
{
    if s.len() > 0 {
        lemma_filtered_all_is_identity(s.drop_last());
        assert(filtered(s, ContractFilter::All) =~= s);
    } else {
        assert(filtered(s, ContractFilter::All) =~= s);
    }
}

/// Listing every contract returns a duplicate-free superset of every
/// other filter category's listing over the same store snapshot.
pub proof fn lemma_all_is_superset_of_every_filter(s: Seq<ContractRecord>, f: ContractFilter)
    requires
        unique_ids(s),
    ensures
        unique_ids(filtered(s, ContractFilter::All)),
        forall|k: int|
            0 <= k < filtered(s, f).len() ==> filtered(s, ContractFilter::All).contains(
                #[trigger] filtered(s, f)[k],
            ),
{
    lemma_filtered_all_is_identity(s);
    lemma_filtered_from_source(s, f);
}

fn clone_record(c: &ContractRecord) -> (r: ContractRecord)
    ensures
        r == *c,
{
    ContractRecord {
        id: c.id.clone(),
        state: c.state,
        counterparty: c.counterparty.clone(),
        pnl_sats: c.pnl_sats,
    }
}

/// Returns the records whose state falls in `filter`, in store order.
/// A `None` filter defaults to `All`, as the contract query does.
pub fn list_contracts(records: &Vec<ContractRecord>, filter: Option<ContractFilter>) -> (r: Vec<
    ContractRecord,
>)
    ensures
        r@ == filtered(records@, resolve_filter(filter)),
{
    let f = match filter {
        Some(f) => f,
        None => ContractFilter::All,
    };
    let mut out: Vec<ContractRecord> = Vec::new();
    let mut i: usize = 0;
    while i < records.len()
        invariant
            i <= records@.len(),
            out@ == filtered(records@.take(i as int), f),
        decreases records@.len() - i,
    {
        proof {
            assert(records@.take(i + 1).drop_last() =~= records@.take(i as int));
            assert(records@.take(i + 1).last() == records@[i as int]);
        }
        if state_matches(records[i].state, f) {
            let c = clone_record(&records[i]);
            out.push(c);
        }
        i = i + 1;
    }
    proof {
        assert(records@.take(records@.len() as int) =~= records@);
    }
    out
}

/// The filter a query resolves to: the one supplied, else `All`.
pub open spec fn resolve_filter(filter: Option<ContractFilter>) -> ContractFilter {
    match filter {
        Some(f) => f,
        None => ContractFilter::All,
    }
}

/// Looks up the single record with the given id among `records`.
/// Fails with `NotFound` when no record carries it.
pub fn find_contract(records: &Vec<ContractRecord>, id: &String) -> (r: Result<
    ContractRecord,
    SolError,
>)
    ensures
        r matches Ok(c) ==> exists|i: int|
            0 <= i < records@.len() && (#[trigger] records@[i]) == c && c.id@ == id@,
        r is Err <==> (forall|i: int|
            0 <= i < records@.len() ==> (#[trigger] records@[i]).id@ != id@),
        r matches Err(e) ==> e is NotFound,
{
    let mut i: usize = 0;
    while i < records.len()
        invariant
            i <= records@.len(),
            forall|j: int| 0 <= j < i ==> (#[trigger] records@[j]).id@ != id@,
        decreases records@.len() - i,
    {
        if records[i].id.eq(id) {
            return Ok(clone_record(&records[i]));
        }
        i = i + 1;
    }
    Err(SolError::NotFound)
}

/// The contract query of the HTTP surface: resolve the filter
/// (defaulting to `All`), list matching records, and, when an id is
/// supplied, narrow the result to the single matching record or fail
/// with `NotFound`.
pub fn query_contracts(
    records: &Vec<ContractRecord>,
    filter: Option<ContractFilter>,
    id: Option<String>,
) -> (r: Result<Vec<ContractRecord>, SolError>)
    ensures
        ({
            let listed = filtered(records@, resolve_filter(filter));
            match id {
                None => r matches Ok(v) && v@ == listed,
                Some(want) => {
                    &&& r matches Ok(v) ==> v@.len() == 1 && listed.contains(v@[0]) && v@[0].id@
                        == want@
                    &&& r is Err <==> (forall|i: int|
                        0 <= i < listed.len() ==> (#[trigger] listed[i]).id@ != want@)
                    &&& r matches Err(e) ==> e is NotFound
                },
            }
        }),
{
    let listed = list_contracts(records, filter);
    match id {
        None => Ok(listed),
        Some(want) => {
            let found = find_contract(&listed, &want)?;
            let mut out: Vec<ContractRecord> = Vec::new();
            out.push(found);
            Ok(out)
        },
    }
}

} // verus!
