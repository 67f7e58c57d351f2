//! Balance/PnL snapshots: point-in-time records of the wallet and
//! contract balances, and time-windowed retrieval of their history.
//!
//! Monetary sats fields are exact integers. USD display fields are
//! carried in US cents; a product that cannot be represented degrades
//! to zero rather than failing the snapshot, a deliberate
//! degrade-not-fail policy for display fields only.

use vstd::prelude::*;

verus! {

/// Satoshis per bitcoin, the divisor of all USD conversions.
pub open spec fn sats_per_btc() -> int {
    100000000
}

/// A time window for the snapshot history query.
#[derive(Debug, Clone, Copy, PartialEq, Eq, Structural)]
pub enum TimePeriod {
    Day,
    Week,
    Month,
    Year,
}

/// The fixed-length, calendar-naive duration of a period, in seconds.
pub open spec fn period_secs(p: TimePeriod) -> int {
    match p {
        TimePeriod::Day => 86400,
        TimePeriod::Week => 604800,
        TimePeriod::Month => 2592000,
        TimePeriod::Year => 31536000,
    }
}

/// Runtime form of `period_secs`: 24 hours, 7 days, 30 days, 365 days.
pub fn period_duration_secs(p: TimePeriod) -> (r: u64)
    ensures
        r == period_secs(p),
{
    match p {
        TimePeriod::Day => 86400,
        TimePeriod::Week => 604800,
        TimePeriod::Month => 2592000,
        TimePeriod::Year => 31536000,
    }
}

/// A point-in-time balance/PnL record. Created only by the snapshot
/// job and immutable once persisted; timestamps are unix seconds, USD
/// fields US cents.
#[derive(Debug, Clone)]
pub struct BalanceSnapshot {
    pub bitcoin_balance_sats: i64,
    /// Confirmed balance valued in US cents.
    pub bitcoin_balance_usd: i64,
    /// Spot price of one bitcoin in US cents.
    pub bitcoin_price: i64,
    pub contract_balance_sats: i64,
    /// Contract-reserved balance valued in US cents.
    pub contract_balance_usd: i64,
    pub pnl_sats: i64,
    /// PnL valued in US cents.
    pub pnl_usd: i64,
    pub num_contracts: i64,
    pub name: String,
    pub network: String,
    pub created_at: i64,
    pub updated_at: i64,
}

/// The USD value, in cents, of a non-negative amount of satoshis at
/// `price_cents` per bitcoin; zero when the value cannot be
/// represented.
pub open spec fn usd_cents(sats: int, price_cents: int) -> int {
    let v = sats * price_cents / sats_per_btc();
    if v > i64::MAX {
        0
    } else {
        v
    }
}

/// The USD value of a signed amount of satoshis: the magnitude is
/// valued as `usd_cents` and the sign restored.
pub open spec fn signed_usd_cents(sats: int, price_cents: int) -> int {
    if sats >= 0 {
        usd_cents(sats, price_cents)
    } else {
        -usd_cents(-sats, price_cents)
    }
}

fn unsigned_usd_cents(sats: u64, price_cents: u64) -> (r: i64)
    ensures
        r == usd_cents(sats as int, price_cents as int),
{
    proof {
        assert((sats as int) * (price_cents as int) <= (u64::MAX as int) * (u64::MAX as int))
            by (nonlinear_arith)
            requires
                sats <= u64::MAX,
                price_cents <= u64::MAX,
        ;
    }
    let q: u128 = (sats as u128) * (price_cents as u128) / 100000000;
    if q > i64::MAX as u128 {
        0
    } else {
        q as i64
    }
}

fn pnl_usd_cents(sats: i64, price_cents: u64) -> (r: i64)
    ensures
        r == signed_usd_cents(sats as int, price_cents as int),
{
    if sats >= 0 {
        unsigned_usd_cents(sats as u64, price_cents)
    } else {
        let mag: u128 = (-(sats as i128)) as u128;
        proof {
            assert((mag as int) * (price_cents as int) <= (u64::MAX as int) * (u64::MAX as int))
                by (nonlinear_arith)
                requires
                    mag <= u64::MAX,
                    price_cents <= u64::MAX,
            ;
        }
        let q: u128 = mag * (price_cents as u128) / 100000000;
        if q > i64::MAX as u128 {
            0
        } else {
            -(q as i64)
        }
    }
}

/// Computes one snapshot from the fetched balance components, the
/// contract count and the spot price. Sats fields are carried exactly;
/// USD fields are valued at `price_cents` per bitcoin, degrading to
/// zero when unrepresentable.
pub fn compute_snapshot(
    confirmed_sats: u64,
    contract_sats: u64,
    pnl_sats: i64,
    num_contracts: u64,
    price_cents: u64,
    name: String,
    network: String,
    created_at: i64,
) -> (s: BalanceSnapshot)
    requires
        confirmed_sats <= i64::MAX,
        contract_sats <= i64::MAX,
        num_contracts <= i64::MAX,
        price_cents <= i64::MAX,
    ensures
        s.bitcoin_balance_sats == confirmed_sats,
        s.bitcoin_balance_usd == usd_cents(confirmed_sats as int, price_cents as int),
        s.bitcoin_price == price_cents,
        s.contract_balance_sats == contract_sats,
        s.contract_balance_usd == usd_cents(contract_sats as int, price_cents as int),
        s.pnl_sats == pnl_sats,
        s.pnl_usd == signed_usd_cents(pnl_sats as int, price_cents as int),
        s.num_contracts == num_contracts,
        s.name == name,
        s.network == network,
        s.created_at == created_at,
        s.updated_at == created_at,
{
    BalanceSnapshot {
        bitcoin_balance_sats: confirmed_sats as i64,
        bitcoin_balance_usd: unsigned_usd_cents(confirmed_sats, price_cents),
        bitcoin_price: price_cents as i64,
        contract_balance_sats: contract_sats as i64,
        contract_balance_usd: unsigned_usd_cents(contract_sats, price_cents),
        pnl_sats,
        pnl_usd: pnl_usd_cents(pnl_sats, price_cents),
        num_contracts: num_contracts as i64,
        name,
        network,
        created_at,
        updated_at: created_at,
    }
}

fn clone_snapshot(s: &BalanceSnapshot) -> (r: BalanceSnapshot)
    ensures
        r == *s,
{
    BalanceSnapshot {
        bitcoin_balance_sats: s.bitcoin_balance_sats,
        bitcoin_balance_usd: s.bitcoin_balance_usd,
        bitcoin_price: s.bitcoin_price,
        contract_balance_sats: s.contract_balance_sats,
        contract_balance_usd: s.contract_balance_usd,
        pnl_sats: s.pnl_sats,
        pnl_usd: s.pnl_usd,
        num_contracts: s.num_contracts,
        name: s.name.clone(),
        network: s.network.clone(),
        created_at: s.created_at,
        updated_at: s.updated_at,
    }
}

/// A run of snapshots is ordered by creation time.
pub open spec fn sorted_by_created_at(rows: Seq<BalanceSnapshot>) -> bool {
    forall|i: int, j: int|
        0 <= i <= j < rows.len() ==> (#[trigger] rows[i]).created_at <= (
        #[trigger] rows[j]).created_at
}

/// The subsequence of `rows` created within `[start, end]`, in order.
pub open spec fn window(rows: Seq<BalanceSnapshot>, start: int, end: int) -> Seq<BalanceSnapshot>
    decreases rows.len(),
{
    if rows.len() == 0 {
        Seq::empty()
    } else {
        let rest = window(rows.drop_last(), start, end);
        if start <= rows.last().created_at <= end {
            rest.push(rows.last())
        } else {
            rest
        }
    }
}

/// A window taken from an ordered run is itself ordered.
pub proof fn lemma_window_sorted(rows: Seq<BalanceSnapshot>, start: int, end: int)
    requires
        sorted_by_created_at(rows),
    ensures
        sorted_by_created_at(window(rows, start, end)),
        forall|k: int|
            0 <= k < window(rows, start, end).len() ==> start <= (#[trigger] window(
                rows,
                start,
                end,
            )[k]).created_at <= end,
    decreases rows.len(),
{
    if rows.len() > 0 {
        assert(sorted_by_created_at(rows.drop_last()));
        lemma_window_sorted(rows.drop_last(), start, end);
        let w = window(rows, start, end);
        let sub = window(rows.drop_last(), start, end);
        lemma_window_of_sorted_bounds(rows.drop_last(), start, end);
        assert forall|i: int, j: int| 0 <= i <= j < w.len() implies (#[trigger] w[i]).created_at
            <= (#[trigger] w[j]).created_at by {
            if j < sub.len() {
            } else if start <= rows.last().created_at <= end {
                if i < sub.len() {
                    assert(sub[i].created_at <= rows.last().created_at);
                }
            }
        }
    }
}

/// Every row of a window from an ordered run is bounded by the run's
/// last row.
proof fn lemma_window_of_sorted_bounds(rows: Seq<BalanceSnapshot>, start: int, end: int)
    requires
        sorted_by_created_at(rows),
    ensures
        forall|k: int|
            0 <= k < window(rows, start, end).len() ==> rows.len() > 0 && (#[trigger] window(
                rows,
                start,
                end,
            )[k]).created_at <= rows.last().created_at,
    decreases rows.len(),
{
    if rows.len() > 0 {
        assert(sorted_by_created_at(rows.drop_last()));
        lemma_window_of_sorted_bounds(rows.drop_last(), start, end);
        let w = window(rows, start, end);
        let sub = window(rows.drop_last(), start, end);
        assert forall|k: int| 0 <= k < w.len() implies rows.len() > 0 && (
        #[trigger] w[k]).created_at <= rows.last().created_at by {
            if k < sub.len() {
                assert(rows.drop_last().len() > 0);
                assert(sub[k].created_at <= rows.drop_last().last().created_at);
                assert(rows.drop_last().last() == rows[rows.len() - 2]);
                assert(rows[rows.len() - 2].created_at <= rows.last().created_at);
            } else {
                assert(w[k] == rows.last());
            }
        }
    }
}

/// The persisted run of balance snapshots, ordered by creation time.
/// Stands for the balance table of the backing store; one `persist`
/// is one committed transaction, so a reader sees either the whole
/// row or nothing of it.
#[derive(Debug)]
pub struct SnapshotStore {
    rows: Vec<BalanceSnapshot>,
}

impl SnapshotStore {
    /// The persisted rows, oldest first.
    pub closed spec fn rows(self) -> Seq<BalanceSnapshot> {
        self.rows@
    }

    /// The store keeps its rows ordered by creation time.
    pub open spec fn well_formed(self) -> bool {
        sorted_by_created_at(self.rows())
    }

    /// An empty store.
    pub fn new() -> (s: SnapshotStore)
        ensures
            s.rows() == Seq::<BalanceSnapshot>::empty(),
            s.well_formed(),
    {
        SnapshotStore { rows: Vec::new() }
    }

    /// Number of persisted snapshots.
    pub fn len(&self) -> (n: usize)
        ensures
            n == self.rows().len(),
    {
        self.rows.len()
    }

    /// Persists one snapshot atomically, keeping the rows ordered: the
    /// new run is the old one with `s` inserted at its sorted position.
    pub fn persist(&mut self, s: BalanceSnapshot)
        requires
            old(self).well_formed(),
        ensures
            final(self).well_formed(),
            final(self).rows().len() == old(self).rows().len() + 1,
            exists|k: int|
                0 <= k <= old(self).rows().len() && final(self).rows() == old(self).rows().insert(
                    k,
                    s,
                ),
    {
        let mut k: usize = self.rows.len();
        while k > 0 && self.rows[k - 1].created_at > s.created_at
            invariant
                k <= self.rows@.len(),
                forall|j: int|
                    k <= j < self.rows@.len() ==> (#[trigger] self.rows@[j]).created_at
                        > s.created_at,
            decreases k,
        {
            k = k - 1;
        }
        proof {
            if k > 0 {
                assert(self.rows@[k - 1].created_at <= s.created_at);
            }
        }
        self.rows.insert(k, s);
        proof {
            old(self).rows().insert_ensures(k as int, s);
            let rows = self.rows@;
            assert forall|i: int, j: int| 0 <= i <= j < rows.len() implies (
            #[trigger] rows[i]).created_at <= (#[trigger] rows[j]).created_at by {
                let o = old(self).rows();
                assert(sorted_by_created_at(o));
                if i < k && j == k {
                    assert(rows[i] == o[i]);
                    assert(o[i].created_at <= o[k - 1].created_at);
                } else if i == k && j > k {
                    assert(rows[j] == o[j - 1]);
                } else if i < k && j > k {
                    assert(rows[i] == o[i]);
                    assert(rows[j] == o[j - 1]);
                } else if i > k && j > k {
                    assert(rows[i] == o[i - 1]);
                    assert(rows[j] == o[j - 1]);
                } else if i < k && j < k {
                    assert(rows[i] == o[i]);
                    assert(rows[j] == o[j]);
                }
            }
        }
    }

    /// The history query: all snapshots created within
    /// `[reference_date - duration(time_period), reference_date]`,
    /// oldest first. An empty window yields an empty run, not an
    /// error.
    pub fn get_history(&self, time_period: TimePeriod, reference_date: i64) -> (r: Vec<
        BalanceSnapshot,
    >)
        requires
            self.well_formed(),
            reference_date >= i64::MIN + period_secs(time_period),
        ensures
            r@ == window(
                self.rows(),
                reference_date - period_secs(time_period),
                reference_date as int,
            ),
            sorted_by_created_at(r@),
            forall|k: int|
                0 <= k < r@.len() ==> reference_date - period_secs(time_period) <= (
                #[trigger] r@[k]).created_at <= reference_date,
    {
        let duration = period_duration_secs(time_period);
        let start: i64 = reference_date - duration as i64;
        let mut out: Vec<BalanceSnapshot> = Vec::new();
        let mut i: usize = 0;
        while i < self.rows.len()
            invariant
                i <= self.rows@.len(),
                out@ == window(self.rows@.take(i as int), start as int, reference_date as int),
            decreases self.rows@.len() - i,
        {
            proof {
                assert(self.rows@.take(i + 1).drop_last() =~= self.rows@.take(i as int));
                assert(self.rows@.take(i + 1).last() == self.rows@[i as int]);
            }
            let row = &self.rows[i];
            if start <= row.created_at && row.created_at <= reference_date {
                let c = clone_snapshot(row);
                out.push(c);
            }
            i = i + 1;
        }
        proof {
            assert(self.rows@.take(self.rows@.len() as int) =~= self.rows@);
            lemma_window_sorted(self.rows@, start as int, reference_date as int);
        }
        out
    }
}

/// The balance components this layer reads from the external engine's
/// wallet, distilled to plain values.
#[derive(Debug, Clone, Copy, PartialEq, Eq, Structural)]
pub struct WalletBalance {
    pub confirmed_sats: u64,
    pub contract_sats: u64,
    pub pnl_sats: i64,
}

} // verus!
