//! Settlement logic of a peer-to-peer NFT marketplace: escrow records, their
//! byte layout, the addresses they live at, and the state transitions that
//! list, bid, match and close them.
pub mod accounts;
pub mod address;
pub mod admin;
pub mod bidding;
pub mod error;
pub mod fee;
pub mod identity;
pub mod laws;
pub mod listing;
pub mod plan;
pub mod processor;
pub mod state;
