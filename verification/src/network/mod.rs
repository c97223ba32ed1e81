//! The peer-to-peer network of the node.

pub mod address;
pub mod gossip;
pub mod session;
pub mod split;
pub mod startup;
