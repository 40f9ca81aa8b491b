//! Verified core of an on-chain options, perpetuals and futures venue.
pub mod errors;
pub mod math;
pub mod state;
pub mod convert;
pub mod perp;
pub mod futures;
pub mod orders;
pub mod options;
pub mod registry;
pub mod liquidity;
pub mod vault;
pub mod laws;
