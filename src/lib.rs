//! A multi-token ledger: many token ids, each with a balance per account,
//! with creation, minting, balance queries and the receiver handshake.

pub mod account;
pub mod error;
pub mod store;
pub mod events;
pub mod contract;
pub mod receiver;
pub mod laws;
