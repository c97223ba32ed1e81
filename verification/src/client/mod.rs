//! The calls that a client makes to the chain.

pub mod elections;
pub mod keys;
pub mod staking;
pub mod transaction;
pub mod version_upgrade;
