//! Blocks: whether they are justified, and what the chain says of them.

pub mod status_notifier;
pub mod verification;
