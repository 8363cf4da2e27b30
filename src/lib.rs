//! Polling of live streams into viewer-count datapoints: the planning of
//! stream queries into shards, the paging through each shard with its early
//! stop under a minimum viewer count, the cache of category names, and the
//! assembly of labelled datapoints.

pub mod query;
pub mod streams;
pub mod planner;
pub mod pagination;
pub mod category;
pub mod metrics;
pub mod comments;
pub mod tick;
