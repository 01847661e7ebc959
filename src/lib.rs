//! Energy token ledger: gated minting and burning of a kilowatt-hour token,
//! and an escrow marketplace of sell orders whose vaults are controlled by
//! program-derived authorities.
pub mod address;
pub mod error;
pub mod token;
pub mod market;
pub mod laws;
