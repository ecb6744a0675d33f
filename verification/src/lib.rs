//! An escrow ledger for native coins, fungible tokens and non-fungible tokens,
//! with a fixed-price sale of a token held in custody.

pub mod balance;
pub mod contract;
pub mod error;
pub mod laws;
pub mod model;
pub mod msg;
pub mod state;
pub mod store;
pub mod text;
