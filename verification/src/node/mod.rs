//! How a node is set up from its command line.

pub mod pruning;
pub mod startup;
