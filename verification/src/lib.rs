//! Purchase-and-allocation engine of a fixed-supply collectible sale.
//!
//! The crate holds the rules of the sale as verified code over explicit
//! state: the attribute pool, the economic configuration, and the ledger of
//! purchases and allow-listed addresses. Storage, message encoding and the
//! token registry itself live outside; every operation here takes the state
//! it works on and hands back the effects to perform.

pub mod address;
pub mod contract;
pub mod errors;
pub mod guarantees;
pub mod ledger;
pub mod msg;
pub mod selector;
pub mod state;
