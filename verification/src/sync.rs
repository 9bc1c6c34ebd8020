//! Synchronization scaffolding: status, strategies, and the remote client
//! handle.

use vstd::prelude::*;

pub mod client;
pub mod strategy;

verus! {

/// The state of a synchronization run.
#[derive(Debug, Clone)]
pub enum SyncStatus {
    Idle,
    InProgress,
    Completed,
    Failed(String),
}

/// The synchronization manager; it holds no state yet and reports an idle
/// status.
pub struct SyncManager;

impl SyncManager {
    /// A new manager.
    pub fn new() -> (r: Result<Self, crate::error::AeroBaseError>)
        ensures
            r is Ok,
    {
        Ok(SyncManager)
    }

    /// The current status: always idle.
    pub fn status(&self) -> (r: SyncStatus)
        ensures
            r is Idle,
    {
        SyncStatus::Idle
    }
}

impl Default for SyncManager {
    /// A new manager.
    fn default() -> Self {
        SyncManager
    }
}

} // verus!
