//! Device records and the secure identity store.

use vstd::prelude::*;

pub mod identity;
pub mod secure;

verus! {

/// A device row as the plain (unprotected) device manager keeps it.
#[derive(Debug, Clone)]
pub struct Device {
    pub id: String,
    pub fingerprint: String,
    pub hardware_info: Option<String>,
    pub created_at: i64,
    pub last_seen: i64,
}

} // verus!
