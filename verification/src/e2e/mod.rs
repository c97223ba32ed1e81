//! The end-to-end scenarios: what they do to a running chain, and what they
//! expect of it.

pub mod electing_validators;
pub mod rewards;
pub mod rewards_run;
pub mod utility;
pub mod version_upgrade;
