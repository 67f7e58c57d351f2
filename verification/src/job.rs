//! The balance snapshot job and the shared engine handle.
//!
//! The job is a state machine: fetch the spot price, the wallet
//! balance and the contract count from the external collaborators,
//! then persist one snapshot; any failure aborts the run before
//! persisting. The runner performs the external calls and feeds each
//! outcome back; this layer decides every transition.

use vstd::prelude::*;

use crate::balance::{compute_snapshot, BalanceSnapshot, SnapshotStore, WalletBalance};
use crate::errors::SolError;

verus! {

/// The phases of one snapshot job run, each carrying what the run has
/// fetched so far.
#[derive(Debug, Clone)]
pub enum SnapshotJob {
    Start,
    PriceFetched { price_cents: u64 },
    BalanceFetched { price_cents: u64, balance: WalletBalance },
    CountFetched { price_cents: u64, balance: WalletBalance, num_contracts: u64 },
    Done,
    Failed { reason: SolError },
}

impl SnapshotJob {
    /// A fresh run, before any external call.
    pub fn start() -> (s: SnapshotJob)
        ensures
            s is Start,
    {
        SnapshotJob::Start
    }

    /// Feeds the price feed's outcome into a fresh run: the fetched
    /// price in US cents advances the run, a feed failure aborts it as
    /// an upstream failure.
    pub fn on_price(self, fetched: Result<u64, SolError>) -> (next: SnapshotJob)
        requires
            self is Start,
        ensures
            fetched matches Ok(p) ==> next == (SnapshotJob::PriceFetched { price_cents: p }),
            fetched is Err ==> (next matches SnapshotJob::Failed { reason }
                && reason is UpstreamFailure),
    {
        match fetched {
            Ok(price_cents) => SnapshotJob::PriceFetched { price_cents },
            Err(_) => SnapshotJob::Failed { reason: SolError::UpstreamFailure },
        }
    }

    /// Feeds the engine's balance outcome into a run that holds the
    /// price.
    pub fn on_balance(self, fetched: Result<WalletBalance, SolError>) -> (next: SnapshotJob)
        requires
            self is PriceFetched,
        ensures
            fetched matches Ok(b) ==> next == (SnapshotJob::BalanceFetched {
                price_cents: self->PriceFetched_price_cents,
                balance: b,
            }),
            fetched is Err ==> (next matches SnapshotJob::Failed { reason }
                && reason is UpstreamFailure),
    {
        let price_cents = match self {
            SnapshotJob::PriceFetched { price_cents } => price_cents,
            _ => 0,
        };
        match fetched {
            Ok(balance) => SnapshotJob::BalanceFetched { price_cents, balance },
            Err(_) => SnapshotJob::Failed { reason: SolError::UpstreamFailure },
        }
    }

    /// Feeds the store's contract count outcome into a run that holds
    /// the price and the balance.
    pub fn on_count(self, fetched: Result<u64, SolError>) -> (next: SnapshotJob)
        requires
            self is BalanceFetched,
        ensures
            fetched matches Ok(n) ==> next == (SnapshotJob::CountFetched {
                price_cents: self->BalanceFetched_price_cents,
                balance: self->BalanceFetched_balance,
                num_contracts: n,
            }),
            fetched is Err ==> (next matches SnapshotJob::Failed { reason }
                && reason is UpstreamFailure),
    {
        let (price_cents, balance) = match self {
            SnapshotJob::BalanceFetched { price_cents, balance } => (price_cents, balance),
            _ => (
                0,
                WalletBalance { confirmed_sats: 0, contract_sats: 0, pnl_sats: 0 },
            ),
        };
        match fetched {
            Ok(num_contracts) => SnapshotJob::CountFetched { price_cents, balance, num_contracts },
            Err(_) => SnapshotJob::Failed { reason: SolError::UpstreamFailure },
        }
    }

    /// Persists the snapshot of a fully fetched run atomically and
    /// finishes the run. Everything fetched is carried into the row;
    /// the row's timestamps are `now`.
    pub fn persist(self, store: &mut SnapshotStore, name: String, network: String, now: i64) -> (
        next: SnapshotJob)
        requires
            self matches SnapshotJob::CountFetched { price_cents, balance, num_contracts } && ({
                &&& price_cents <= i64::MAX
                &&& balance.confirmed_sats <= i64::MAX
                &&& balance.contract_sats <= i64::MAX
                &&& num_contracts <= i64::MAX
            }),
            old(store).well_formed(),
        ensures
            next is Done,
            final(store).well_formed(),
            final(store).rows().len() == old(store).rows().len() + 1,
            exists|k: int|
                0 <= k <= old(store).rows().len() && final(store).rows() == old(
                    store,
                ).rows().insert(
                    k,
                    snapshot_of_run(
                        self->CountFetched_price_cents,
                        self->CountFetched_balance,
                        self->CountFetched_num_contracts,
                        name,
                        network,
                        now,
                    ),
                ),
    {
        let (price_cents, balance, num_contracts) = match self {
            SnapshotJob::CountFetched { price_cents, balance, num_contracts } => (
                price_cents,
                balance,
                num_contracts,
            ),
            _ => (
                0,
                WalletBalance { confirmed_sats: 0, contract_sats: 0, pnl_sats: 0 },
                0,
            ),
        };
        let row = compute_snapshot(
            balance.confirmed_sats,
            balance.contract_sats,
            balance.pnl_sats,
            num_contracts,
            price_cents,
            name,
            network,
            now,
        );
        let ghost row_ghost = row;
        proof {
            let pc = price_cents as int;
            assert((balance.confirmed_sats as int) * pc >= 0) by (nonlinear_arith)
                requires
                    balance.confirmed_sats >= 0,
                    pc >= 0,
            ;
            assert((balance.contract_sats as int) * pc >= 0) by (nonlinear_arith)
                requires
                    balance.contract_sats >= 0,
                    pc >= 0,
            ;
            if balance.pnl_sats < 0 {
                assert((-(balance.pnl_sats as int)) * pc >= 0) by (nonlinear_arith)
                    requires
                        balance.pnl_sats < 0,
                        pc >= 0,
                ;
            } else {
                assert((balance.pnl_sats as int) * pc >= 0) by (nonlinear_arith)
                    requires
                        balance.pnl_sats >= 0,
                        pc >= 0,
                ;
            }
            vstd::arithmetic::div_mod::lemma_div_pos_is_pos(
                (balance.confirmed_sats as int) * pc,
                100000000,
            );
            vstd::arithmetic::div_mod::lemma_div_pos_is_pos(
                (balance.contract_sats as int) * pc,
                100000000,
            );
            if balance.pnl_sats < 0 {
                vstd::arithmetic::div_mod::lemma_div_pos_is_pos(
                    (-(balance.pnl_sats as int)) * pc,
                    100000000,
                );
            } else {
                vstd::arithmetic::div_mod::lemma_div_pos_is_pos(
                    (balance.pnl_sats as int) * pc,
                    100000000,
                );
            }
        }
        store.persist(row);
        proof {
            let target = snapshot_of_run(price_cents, balance, num_contracts, name, network, now);
            assert(row_ghost == target);
            let k = choose|k: int|
                0 <= k <= old(store).rows().len() && store.rows() == old(store).rows().insert(
                    k,
                    row_ghost,
                );
            assert(0 <= k <= old(store).rows().len() && store.rows() == old(store).rows().insert(
                k,
                target,
            ));
        }
        SnapshotJob::Done
    }
}

/// The row a fully fetched run persists: sats fields exact, USD
/// fields valued at the fetched price, both timestamps `now`.
pub open spec fn snapshot_of_run(
    price_cents: u64,
    balance: WalletBalance,
    num_contracts: u64,
    name: String,
    network: String,
    now: i64,
) -> BalanceSnapshot {
    BalanceSnapshot {
        bitcoin_balance_sats: balance.confirmed_sats as i64,
        bitcoin_balance_usd: crate::balance::usd_cents(
            balance.confirmed_sats as int,
            price_cents as int,
        ) as i64,
        bitcoin_price: price_cents as i64,
        contract_balance_sats: balance.contract_sats as i64,
        contract_balance_usd: crate::balance::usd_cents(
            balance.contract_sats as int,
            price_cents as int,
        ) as i64,
        pnl_sats: balance.pnl_sats,
        pnl_usd: crate::balance::signed_usd_cents(
            balance.pnl_sats as int,
            price_cents as int,
        ) as i64,
        num_contracts: num_contracts as i64,
        name,
        network,
        created_at: now,
        updated_at: now,
    }
}

/// The process-wide engine handle: uninitialized until its single
/// construction, then ready with one instance for the rest of the
/// process's life.
#[derive(Debug, Clone, Copy, PartialEq, Eq, Structural)]
pub enum EngineHandle {
    Uninitialized,
    Ready { instance: u64 },
}

/// The handle after one get-or-init step offered the freshly
/// constructed `fresh`: a first caller installs it, every later
/// caller observes the installed instance unchanged.
pub open spec fn init_step(h: EngineHandle, fresh: u64) -> EngineHandle {
    match h {
        EngineHandle::Uninitialized => EngineHandle::Ready { instance: fresh },
        EngineHandle::Ready { instance } => EngineHandle::Ready { instance },
    }
}

impl EngineHandle {
    /// A handle before any initialization.
    pub fn new() -> (h: EngineHandle)
        ensures
            h is Uninitialized,
    {
        EngineHandle::Uninitialized
    }

    /// Get-or-init: installs `fresh` only if nothing is installed yet,
    /// and returns the installed instance.
    pub fn get_or_init(&mut self, fresh: u64) -> (r: u64)
        ensures
            *final(self) == init_step(*old(self), fresh),
            *final(self) == (EngineHandle::Ready { instance: r }),
            *old(self) is Uninitialized ==> r == fresh,
            *old(self) matches EngineHandle::Ready { instance } ==> r == instance,
    {
        match *self {
            EngineHandle::Uninitialized => {
                *self = EngineHandle::Ready { instance: fresh };
                fresh
            },
            EngineHandle::Ready { instance } => instance,
        }
    }
}

/// Initialization happens exactly once: however many get-or-init
/// steps follow the first, each observes the instance the first step
/// installed, and none installs another.
pub proof fn lemma_init_exactly_once(fresh0: u64, later: Seq<u64>)
    ensures
        init_steps(init_step(EngineHandle::Uninitialized, fresh0), later) == (EngineHandle::Ready {
            instance: fresh0,
        }),
    decreases later.len(),
{
    if later.len() > 0 {
        assert(init_step(EngineHandle::Ready { instance: fresh0 }, later[0])
            == (EngineHandle::Ready { instance: fresh0 }));
        lemma_init_exactly_once(fresh0, later.skip(1));
        assert(init_steps(EngineHandle::Ready { instance: fresh0 }, later) == init_steps(
            init_step(EngineHandle::Ready { instance: fresh0 }, later[0]),
            later.skip(1),
        ));
    }
}

/// The handle after a run of get-or-init steps, each offering its own
/// freshly constructed instance.
pub open spec fn init_steps(h: EngineHandle, fresh: Seq<u64>) -> EngineHandle
    decreases fresh.len(),
{
    if fresh.len() == 0 {
        h
    } else {
        init_steps(init_step(h, fresh[0]), fresh.skip(1))
    }
}

} // verus!
