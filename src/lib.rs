//! A coffee shop that sells recipe-based cups from a weighed ingredient stock.
//!
//! The library holds the shop's rules: recipes as percentage shares, the
//! weight a purchase needs, the ingredient ledger, the menu and its prices,
//! and the owner check in front of every mutation. Storage, token transfers
//! and message encoding belong to the host around it.

pub mod coffee_state;
pub mod contract;
pub mod error;
pub mod ledger;
pub mod products;
pub mod state;

pub use crate::error::ContractError;
