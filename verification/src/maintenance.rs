//! The out-of-band environment reset: which persisted table groups a
//! reset run drops. The SQL itself runs at the boundary; this layer
//! decides the plan from the run's flags.

use vstd::prelude::*;

verus! {

/// The flags a reset run is invoked with.
#[derive(Debug, Clone, Copy, PartialEq, Eq, Structural)]
pub struct ResetFlags {
    pub all: bool,
    pub wallet: bool,
    pub seed: bool,
    pub dlc: bool,
}

/// What a reset run drops: every table, or the selected groups.
#[derive(Debug, Clone, Copy, PartialEq, Eq, Structural)]
pub enum ResetPlan {
    Everything,
    Groups { wallet: bool, seed: bool, dlc: bool },
}

/// Resolves the flags of a run into its plan: `all` drops everything;
/// otherwise exactly the flagged groups are dropped.
pub fn plan_reset(flags: ResetFlags) -> (r: ResetPlan)
    ensures
        flags.all ==> r is Everything,
        !flags.all ==> r == (ResetPlan::Groups {
            wallet: flags.wallet,
            seed: flags.seed,
            dlc: flags.dlc,
        }),
{
    if flags.all {
        ResetPlan::Everything
    } else {
        ResetPlan::Groups { wallet: flags.wallet, seed: flags.seed, dlc: flags.dlc }
    }
}

} // verus!
