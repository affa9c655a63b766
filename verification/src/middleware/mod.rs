pub mod caching;
pub mod logger;
