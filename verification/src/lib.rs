//! A kitties pallet: accounts create kitties with random DNA, transfer them, and breed
//! two kitties into a new one whose DNA mixes the parents' genes bit by bit.

pub mod types;
pub mod hashing;
pub mod system;
pub mod pallet;
pub mod mock;
pub mod laws;
