//! Device identity information.

use vstd::prelude::*;

verus! {

/// A device identity: an identifier, a fingerprint, and whether the
/// identity is authorized.
#[derive(Debug, Clone)]
pub struct Identity {
    pub device_id: String,
    pub fingerprint: String,
    pub is_authorized: bool,
}

impl Identity {
    /// A new identity, authorized from the start.
    pub fn new(device_id: String, fingerprint: String) -> (r: Self)
        ensures
            r.device_id@ == device_id@,
            r.fingerprint@ == fingerprint@,
            r.is_authorized,
    {
        Identity { device_id, fingerprint, is_authorized: true }
    }

    /// The identity is valid: both identifier and fingerprint are
    /// non-empty, and it is authorized.
    pub fn is_valid(&self) -> (r: bool)
        ensures
            r == (self.device_id@.len() > 0 && self.fingerprint@.len() > 0 && self.is_authorized),
    {
        !self.device_id.as_str().is_empty() && !self.fingerprint.as_str().is_empty()
            && self.is_authorized
    }
}

} // verus!
