//! A network for maintaining direct connections between all nodes.

pub mod authorization;
pub mod peer;
pub mod protocol;
pub mod unit_bucket;
