//! Owner-gated mint authority delegation.
//!
//! A token mint's authority is moved from a signing key to an address derived
//! from the mint (an address with no secret key). From then on new supply can
//! only be created, or minting disabled for good, through the instructions of
//! this crate, and only by the owner recorded in the mint's configuration.

pub mod address;
pub mod ledger;
pub mod program;
pub mod laws;
