//! Rate limiting by token buckets, for one consumer or for several that share
//! a bandwidth.

pub mod hierarchical;
pub mod limiter;
pub mod rate;
pub mod shared_bandwidth;
pub mod token_bucket;
