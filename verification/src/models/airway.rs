//! Airways and their altitude limits.

use vstd::prelude::*;

use crate::bindings::now_timestamp;
use crate::models::{matches_ci, upper_chars};

verus! {

/// A kind of airway.
#[derive(Debug, Clone, PartialEq, Eq, Structural)]
pub enum AirwayType {
    High,
    Low,
    RNAV,
    Other,
}

/// The airway type that a text names, compared ignoring ASCII case.
pub open spec fn spec_airway_type_from(s: Seq<char>) -> AirwayType {
    let u = upper_chars(s);
    if u == upper_chars("HIGH"@) {
        AirwayType::High
    } else if u == upper_chars("LOW"@) {
        AirwayType::Low
    } else if u == upper_chars("RNAV"@) {
        AirwayType::RNAV
    } else {
        AirwayType::Other
    }
}

impl AirwayType {
    /// The type's code.
    pub fn as_str(&self) -> (r: &'static str)
        ensures
            match self {
                AirwayType::High => r@ == "HIGH"@,
                AirwayType::Low => r@ == "LOW"@,
                AirwayType::RNAV => r@ == "RNAV"@,
                AirwayType::Other => r@ == "OTHER"@,
            },
    {
        match self {
            AirwayType::High => "HIGH",
            AirwayType::Low => "LOW",
            AirwayType::RNAV => "RNAV",
            AirwayType::Other => "OTHER",
        }
    }

    /// The type a text names, ignoring ASCII case; anything unrecognized is
    /// `Other`.
    pub fn from_str(s: &str) -> (r: Self)
        ensures
            r == spec_airway_type_from(s@),
    {
        if matches_ci(s, "HIGH") {
            AirwayType::High
        } else if matches_ci(s, "LOW") {
            AirwayType::Low
        } else if matches_ci(s, "RNAV") {
            AirwayType::RNAV
        } else {
            AirwayType::Other
        }
    }
}

/// An airway with optional altitude limits in feet.
#[derive(Debug, Clone)]
pub struct Airway {
    pub id: String,
    pub name: String,
    pub airway_type: AirwayType,
    pub min_altitude: Option<i32>,
    pub max_altitude: Option<i32>,
    pub created_at: i64,
}

impl Airway {
    /// A new airway without altitude limits, stamped with the current time.
    pub fn new(id: String, name: String, airway_type: AirwayType) -> (r: Self)
        ensures
            r.id@ == id@,
            r.name@ == name@,
            r.airway_type == airway_type,
            r.min_altitude is None,
            r.max_altitude is None,
    {
        Airway {
            id,
            name,
            airway_type,
            min_altitude: None,
            max_altitude: None,
            created_at: now_timestamp(),
        }
    }

    /// Whether an altitude lies within the airway's limits; an absent
    /// limit does not constrain.
    pub fn is_altitude_valid(&self, altitude: i32) -> (r: bool)
        ensures
            r == match (self.min_altitude, self.max_altitude) {
                (Some(lo), Some(hi)) => lo <= altitude && altitude <= hi,
                (Some(lo), None) => lo <= altitude,
                (None, Some(hi)) => altitude <= hi,
                (None, None) => true,
            },
    {
        match (self.min_altitude, self.max_altitude) {
            (Some(lo), Some(hi)) => lo <= altitude && altitude <= hi,
            (Some(lo), None) => lo <= altitude,
            (None, Some(hi)) => altitude <= hi,
            (None, None) => true,
        }
    }
}

} // verus!
