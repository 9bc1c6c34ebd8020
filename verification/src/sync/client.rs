//! The remote synchronization client handle.

use vstd::prelude::*;

verus! {

/// A client for remote data synchronization, identified by its endpoint.
pub struct SyncClient {
    endpoint: String,
}

impl SyncClient {
    /// The endpoint the client was created with.
    pub closed spec fn spec_endpoint(&self) -> Seq<char> {
        self.endpoint@
    }

    /// A client for the given endpoint.
    pub fn new(endpoint: String) -> (r: Self)
        ensures
            r.spec_endpoint() == endpoint@,
    {
        SyncClient { endpoint }
    }

    /// The endpoint URL.
    pub fn endpoint(&self) -> (r: &str)
        ensures
            r@ == self.spec_endpoint(),
    {
        self.endpoint.as_str()
    }
}

} // verus!
