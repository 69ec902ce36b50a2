//! Epoch-gated transfer-fee accounting for a token ledger.
//!
//! A mint carries a two-slot fee schedule whose pending slot becomes
//! effective at a recorded epoch; holder accounts accrue withheld fees that a
//! batched harvest sweeps into the mint's aggregate.

pub mod clock;
pub mod controller;
pub mod error;
pub mod harvest;
pub mod identity;
pub mod router;
pub mod schedule;
pub mod state;
