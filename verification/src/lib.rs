//! Contract-structuring and lifecycle-tracking core for peer-to-peer
//! discreet log contracts (DLCs).
//!
//! The library builds piecewise payout curves from an oracle-attested
//! numeric outcome, assembles signable contract proposals, classifies
//! contracts by lifecycle state, and maintains balance/PnL snapshots
//! with time-windowed history queries. The cryptographic DLC engine,
//! oracle, relay transport and persistence backend are external
//! collaborators reached through narrow interfaces.

pub mod errors;
pub mod oracle;
pub mod payout;
pub mod lifecycle;
pub mod hexcodec;
pub mod keys;
pub mod offers;
pub mod contract;
pub mod balance;
pub mod job;
pub mod settings;
pub mod nostr_profile;
pub mod maintenance;
