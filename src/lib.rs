//! Resolution of Fast Pair model identifiers to device information, with a
//! deterministic, failure-injectable fetcher for exercising callers offline.

pub mod device;
pub mod fetcher;
pub mod mock;
