//! Envelope encryption for device identity data.
//!
//! The library protects a device's identifying data at rest: bulk data is
//! encrypted under a fresh AES-256-GCM key, and that key is wrapped under an
//! RSA-2048 public key. A secure identity store binds the protected records
//! to the key pair that can recover them.

use vstd::prelude::*;

pub mod bindings;
pub mod device;
pub mod encryption;
pub mod error;
pub mod flight;
pub mod models;
pub mod sync;

verus! {

/// Service configuration for the storage collaborator.
#[derive(Debug, Clone)]
pub struct Config {
    /// Path of the backing database file.
    pub db_path: String,
    /// Enable write-ahead logging for better concurrency.
    pub enable_wal: bool,
    /// Size of the connection pool.
    pub pool_size: u32,
}

impl Default for Config {
    fn default() -> (r: Self)
        ensures
            r.db_path@ == "aerobase.db"@,
            r.enable_wal,
            r.pool_size == 4,
    {
        Config { db_path: String::from_str("aerobase.db"), enable_wal: true, pool_size: 4 }
    }
}

} // verus!
