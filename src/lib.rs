//! Lifecycle management for one embedded SQLite store: configuration,
//! connection-slot accounting, schema migration decisions and the small
//! host-facing commands around them.

pub mod config;
pub mod error;
pub mod greeting;
pub mod lifecycle;
pub mod pool;
pub mod sqlite;
pub mod store;
