//! Pricing and settlement core of a single-asset bonding-curve AMM.
//!
//! The library holds the reserve state machine and swap engine: the record of
//! virtual and real reserves, the seed-configuration validator, the
//! time-phased fee schedule, the buy/sell quote-and-apply algorithms with the
//! curve-completion edge case, and the post-trade invariant checker, together
//! with the fixed-size byte layouts the hosting ledger stores records in.
//! Account loading, address derivation, signature checks and asset transfers
//! are the host's business and live outside the library.

pub mod bonding_curve;
pub mod codec;
pub mod errors;
pub mod escrow;
pub mod global_config;
pub mod instructions;
pub mod helpers;
pub mod swap;
