use vstd::prelude::*;

verus! {

/// Settings of the profile store's database connection pool.
#[derive(Debug, Clone)]
pub struct DatabaseConfig {
    pub url: String,
    pub max_connections: u32,
    pub min_connections: u32,
    pub connect_timeout: u64,
    pub idle_timeout: u64,
    pub max_lifetime: u64,
    pub sqlx_logging: bool,
}

/// Settings of the application log.
#[derive(Debug, Clone)]
pub struct LogConfig {
    pub level: String,
    pub directory: String,
    pub basename: String,
    pub suffix: String,
}

/// The application's configuration file.
#[derive(Debug, Clone)]
pub struct EasyKafkaConfig {
    pub database: DatabaseConfig,
    pub log: LogConfig,
}

} // verus!
