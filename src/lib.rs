//! A coin-flip wagering escrow: a pool accepts stakes, resolves each stake
//! against an outcome signal, pays winners without dropping below a reserve
//! floor, and lets each bettor close their claim receipt exactly once.

pub mod address;
pub mod state;
pub mod engine;
pub mod laws;
