//! A two-party off-chain state-channel coordinator for turn-based wagered
//! games settled on a coin-based blockchain.
//!
//! The coordinator drives two peers through a six-step channel-establishment
//! handshake, a cooperative in-channel loop in which a single write token
//! (the "potato") is passed between the peers to authorize state updates,
//! and the termination paths that spend the channel coin back to each
//! party's reward address.

pub mod types;
pub mod hashing;
pub mod game_id;
pub mod game_start;
pub mod messages;
pub mod codec;
pub mod clvm;
pub mod channel_handler;
pub mod games;
pub mod effects;
pub mod handler;
pub mod laws;
