//! Synchronization strategies.

use vstd::prelude::*;

verus! {

/// How a synchronization run selects what to transfer.
#[derive(Debug, Clone, Copy, PartialEq, Eq, Structural)]
pub enum SyncStrategy {
    /// Download all data.
    Full,
    /// Only changes since the last run.
    Incremental,
    /// Specific data on demand.
    OnDemand,
}

impl SyncStrategy {
    /// The strategy's name.
    pub fn as_str(&self) -> (r: &'static str)
        ensures
            match self {
                SyncStrategy::Full => r@ == "full"@,
                SyncStrategy::Incremental => r@ == "incremental"@,
                SyncStrategy::OnDemand => r@ == "on-demand"@,
            },
    {
        match self {
            SyncStrategy::Full => "full",
            SyncStrategy::Incremental => "incremental",
            SyncStrategy::OnDemand => "on-demand",
        }
    }
}

} // verus!
