//! Taking part in sessions.

pub mod authority;
pub mod mocks;
