//! Core of an epoch-based faction economy game.
//!
//! Users deposit value into one of three factions; factions compete on
//! deposited share through a zero-sum rock-paper-scissors scoring rule, and
//! each epoch a per-user settlement pipeline turns an externally supplied
//! yield amount into buffs, automated item purchases, and a final payout or
//! compounding step.  Token transfers, account storage, authorization, and
//! the wall clock are external collaborators: every function here works on
//! plain state values handed in by the surrounding runtime and reports the
//! transfers that the runtime must perform.

pub mod scoring;
pub mod settlement;
pub mod state;
pub mod conservation;
pub mod lifecycle;
pub mod position;
