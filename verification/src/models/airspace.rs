//! Airspace classes, types, and vertical limits.

use vstd::prelude::*;

use crate::bindings::now_timestamp;
use crate::models::{matches_ci, upper_chars};

verus! {

/// An airspace class, as coded on charts.
#[derive(Debug, Clone, PartialEq, Eq, Structural)]
pub enum AirspaceClass {
    ClassA,
    ClassB,
    ClassC,
    ClassD,
    ClassE,
    ClassG,
    Other,
}

/// The class that a text names, compared ignoring ASCII case.
pub open spec fn spec_airspace_class_from(s: Seq<char>) -> AirspaceClass {
    let u = upper_chars(s);
    if u == upper_chars("A"@) || u == upper_chars("CLASS A"@) {
        AirspaceClass::ClassA
    } else if u == upper_chars("B"@) || u == upper_chars("CLASS B"@) {
        AirspaceClass::ClassB
    } else if u == upper_chars("C"@) || u == upper_chars("CLASS C"@) {
        AirspaceClass::ClassC
    } else if u == upper_chars("D"@) || u == upper_chars("CLASS D"@) {
        AirspaceClass::ClassD
    } else if u == upper_chars("E"@) || u == upper_chars("CLASS E"@) {
        AirspaceClass::ClassE
    } else if u == upper_chars("G"@) || u == upper_chars("CLASS G"@) {
        AirspaceClass::ClassG
    } else {
        AirspaceClass::Other
    }
}

impl AirspaceClass {
    /// The class's one-letter code (or "OTHER").
    pub fn as_str(&self) -> (r: &'static str)
        ensures
            match self {
                AirspaceClass::ClassA => r@ == "A"@,
                AirspaceClass::ClassB => r@ == "B"@,
                AirspaceClass::ClassC => r@ == "C"@,
                AirspaceClass::ClassD => r@ == "D"@,
                AirspaceClass::ClassE => r@ == "E"@,
                AirspaceClass::ClassG => r@ == "G"@,
                AirspaceClass::Other => r@ == "OTHER"@,
            },
    {
        match self {
            AirspaceClass::ClassA => "A",
            AirspaceClass::ClassB => "B",
            AirspaceClass::ClassC => "C",
            AirspaceClass::ClassD => "D",
            AirspaceClass::ClassE => "E",
            AirspaceClass::ClassG => "G",
            AirspaceClass::Other => "OTHER",
        }
    }

    /// The class a text names, ignoring ASCII case; anything unrecognized
    /// is `Other`.
    pub fn from_str(s: &str) -> (r: Self)
        ensures
            r == spec_airspace_class_from(s@),
    {
        if matches_ci(s, "A") || matches_ci(s, "CLASS A") {
            AirspaceClass::ClassA
        } else if matches_ci(s, "B") || matches_ci(s, "CLASS B") {
            AirspaceClass::ClassB
        } else if matches_ci(s, "C") || matches_ci(s, "CLASS C") {
            AirspaceClass::ClassC
        } else if matches_ci(s, "D") || matches_ci(s, "CLASS D") {
            AirspaceClass::ClassD
        } else if matches_ci(s, "E") || matches_ci(s, "CLASS E") {
            AirspaceClass::ClassE
        } else if matches_ci(s, "G") || matches_ci(s, "CLASS G") {
            AirspaceClass::ClassG
        } else {
            AirspaceClass::Other
        }
    }
}

/// A kind of airspace.
#[derive(Debug, Clone, PartialEq, Eq, Structural)]
pub enum AirspaceType {
    ControlZone,
    TerminalArea,
    FlightInfoRegion,
    Restricted,
    Danger,
    Prohibited,
    Other,
}

/// The airspace type that a text names, compared ignoring ASCII case.
pub open spec fn spec_airspace_type_from(s: Seq<char>) -> AirspaceType {
    let u = upper_chars(s);
    if u == upper_chars("CTR"@) || u == upper_chars("CONTROL ZONE"@) {
        AirspaceType::ControlZone
    } else if u == upper_chars("TMA"@) || u == upper_chars("TERMINAL AREA"@) {
        AirspaceType::TerminalArea
    } else if u == upper_chars("FIR"@) || u == upper_chars("FLIGHT INFO REGION"@) {
        AirspaceType::FlightInfoRegion
    } else if u == upper_chars("RESTRICTED"@) || u == upper_chars("R"@) {
        AirspaceType::Restricted
    } else if u == upper_chars("DANGER"@) || u == upper_chars("D"@) {
        AirspaceType::Danger
    } else if u == upper_chars("PROHIBITED"@) || u == upper_chars("P"@) {
        AirspaceType::Prohibited
    } else {
        AirspaceType::Other
    }
}

impl AirspaceType {
    /// The type's chart code.
    pub fn as_str(&self) -> (r: &'static str)
        ensures
            match self {
                AirspaceType::ControlZone => r@ == "CTR"@,
                AirspaceType::TerminalArea => r@ == "TMA"@,
                AirspaceType::FlightInfoRegion => r@ == "FIR"@,
                AirspaceType::Restricted => r@ == "RESTRICTED"@,
                AirspaceType::Danger => r@ == "DANGER"@,
                AirspaceType::Prohibited => r@ == "PROHIBITED"@,
                AirspaceType::Other => r@ == "OTHER"@,
            },
    {
        match self {
            AirspaceType::ControlZone => "CTR",
            AirspaceType::TerminalArea => "TMA",
            AirspaceType::FlightInfoRegion => "FIR",
            AirspaceType::Restricted => "RESTRICTED",
            AirspaceType::Danger => "DANGER",
            AirspaceType::Prohibited => "PROHIBITED",
            AirspaceType::Other => "OTHER",
        }
    }

    /// The type a text names, ignoring ASCII case; anything unrecognized is
    /// `Other`.
    pub fn from_str(s: &str) -> (r: Self)
        ensures
            r == spec_airspace_type_from(s@),
    {
        if matches_ci(s, "CTR") || matches_ci(s, "CONTROL ZONE") {
            AirspaceType::ControlZone
        } else if matches_ci(s, "TMA") || matches_ci(s, "TERMINAL AREA") {
            AirspaceType::TerminalArea
        } else if matches_ci(s, "FIR") || matches_ci(s, "FLIGHT INFO REGION") {
            AirspaceType::FlightInfoRegion
        } else if matches_ci(s, "RESTRICTED") || matches_ci(s, "R") {
            AirspaceType::Restricted
        } else if matches_ci(s, "DANGER") || matches_ci(s, "D") {
            AirspaceType::Danger
        } else if matches_ci(s, "PROHIBITED") || matches_ci(s, "P") {
            AirspaceType::Prohibited
        } else {
            AirspaceType::Other
        }
    }
}

/// An airspace with optional vertical limits in feet.
#[derive(Debug, Clone)]
pub struct Airspace {
    pub id: String,
    pub name: String,
    pub airspace_type: AirspaceType,
    pub class: Option<AirspaceClass>,
    pub lower_limit: Option<i32>,
    pub upper_limit: Option<i32>,
    pub created_at: i64,
}

impl Airspace {
    /// A new airspace without class or vertical limits, stamped with the
    /// current time.
    pub fn new(id: String, name: String, airspace_type: AirspaceType) -> (r: Self)
        ensures
            r.id@ == id@,
            r.name@ == name@,
            r.airspace_type == airspace_type,
            r.class is None,
            r.lower_limit is None,
            r.upper_limit is None,
    {
        Airspace {
            id,
            name,
            airspace_type,
            class: None,
            lower_limit: None,
            upper_limit: None,
            created_at: now_timestamp(),
        }
    }

    /// Whether an altitude lies within the airspace's vertical limits; an
    /// absent limit does not constrain.
    pub fn is_altitude_in_airspace(&self, altitude: i32) -> (r: bool)
        ensures
            r == match (self.lower_limit, self.upper_limit) {
                (Some(lo), Some(hi)) => lo <= altitude && altitude <= hi,
                (Some(lo), None) => lo <= altitude,
                (None, Some(hi)) => altitude <= hi,
                (None, None) => true,
            },
    {
        match (self.lower_limit, self.upper_limit) {
            (Some(lo), Some(hi)) => lo <= altitude && altitude <= hi,
            (Some(lo), None) => lo <= altitude,
            (None, Some(hi)) => altitude <= hi,
            (None, None) => true,
        }
    }
}

} // verus!
