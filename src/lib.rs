//! Administrative-connection lifecycle and statistics aggregation for a
//! Kafka management console: typed connection descriptors, capability-token
//! claims, a session pool, and cluster statistics.
pub mod error;
pub mod descriptor;
pub mod stats;
pub mod pool;
pub mod token;
pub mod decimal;
pub mod dashboard;
pub mod response;
pub mod config;
pub mod session;
pub mod json;
