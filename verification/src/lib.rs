//! Verified core of a blockchain node: rate limiting, peer-to-peer plumbing,
//! block verification, chain client calls and the plans that drive end-to-end
//! scenarios.

pub mod block;
pub mod bytes;
pub mod client;
pub mod clique;
pub mod crypto;
pub mod e2e;
pub mod network;
pub mod node;
pub mod party;
pub mod rate_limiter;
pub mod rpc;
pub mod time;
