//! Kinds of waypoints.

use vstd::prelude::*;

use crate::models::{matches_ci, upper_chars};

verus! {

/// A kind of waypoint.
#[derive(Debug, Clone, PartialEq, Eq, Structural)]
pub enum WaypointType {
    Airport,
    VOR,
    NDB,
    Fix,
    GPS,
    Other,
}

/// The waypoint type that a text names, compared ignoring ASCII case.
pub open spec fn spec_waypoint_type_from(s: Seq<char>) -> WaypointType {
    let u = upper_chars(s);
    if u == upper_chars("AIRPORT"@) {
        WaypointType::Airport
    } else if u == upper_chars("VOR"@) {
        WaypointType::VOR
    } else if u == upper_chars("NDB"@) {
        WaypointType::NDB
    } else if u == upper_chars("FIX"@) {
        WaypointType::Fix
    } else if u == upper_chars("GPS"@) {
        WaypointType::GPS
    } else {
        WaypointType::Other
    }
}

impl WaypointType {
    /// The type's code.
    pub fn as_str(&self) -> (r: &'static str)
        ensures
            match self {
                WaypointType::Airport => r@ == "AIRPORT"@,
                WaypointType::VOR => r@ == "VOR"@,
                WaypointType::NDB => r@ == "NDB"@,
                WaypointType::Fix => r@ == "FIX"@,
                WaypointType::GPS => r@ == "GPS"@,
                WaypointType::Other => r@ == "OTHER"@,
            },
    {
        match self {
            WaypointType::Airport => "AIRPORT",
            WaypointType::VOR => "VOR",
            WaypointType::NDB => "NDB",
            WaypointType::Fix => "FIX",
            WaypointType::GPS => "GPS",
            WaypointType::Other => "OTHER",
        }
    }

    /// The type a text names, ignoring ASCII case; anything unrecognized is
    /// `Other`.
    pub fn from_str(s: &str) -> (r: Self)
        ensures
            r == spec_waypoint_type_from(s@),
    {
        if matches_ci(s, "AIRPORT") {
            WaypointType::Airport
        } else if matches_ci(s, "VOR") {
            WaypointType::VOR
        } else if matches_ci(s, "NDB") {
            WaypointType::NDB
        } else if matches_ci(s, "FIX") {
            WaypointType::Fix
        } else if matches_ci(s, "GPS") {
            WaypointType::GPS
        } else {
            WaypointType::Other
        }
    }
}

} // verus!
