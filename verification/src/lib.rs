//! A bounded-worker-pool task distributor for a brute-force proof-of-work
//! search: a fixed pool of worker threads consumes work items from a shared
//! task channel and publishes results to a shared output channel, while a
//! range partitioner divides the candidate space into balanced chunks and a
//! driver consumes results until a satisfying proof value appears.

pub mod block;
pub mod encode;
pub mod partition;
pub mod queue;
