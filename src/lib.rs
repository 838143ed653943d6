//! A relay controller that gates withdraw orders per bot behind a cooldown
//! and encodes accepted orders as contract calls for an EVM chain.

pub mod abi;
pub mod codec;
pub mod contract;
pub mod hex;
pub mod laws;
pub mod msg;
pub mod state;
