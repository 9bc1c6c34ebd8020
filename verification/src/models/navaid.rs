//! Kinds of radio navigation aids.

use vstd::prelude::*;

use crate::models::{matches_ci, upper_chars};

verus! {

/// A kind of navigation aid.
#[derive(Debug, Clone, PartialEq, Eq, Structural)]
pub enum NavaidType {
    VOR,
    VORDME,
    DME,
    NDB,
    TACAN,
    Other,
}

/// The navaid type that a text names, compared ignoring ASCII case.
pub open spec fn spec_navaid_type_from(s: Seq<char>) -> NavaidType {
    let u = upper_chars(s);
    if u == upper_chars("VOR"@) {
        NavaidType::VOR
    } else if u == upper_chars("VORDME"@) || u == upper_chars("VOR-DME"@) || u == upper_chars(
        "VOR/DME"@,
    ) {
        NavaidType::VORDME
    } else if u == upper_chars("DME"@) {
        NavaidType::DME
    } else if u == upper_chars("NDB"@) {
        NavaidType::NDB
    } else if u == upper_chars("TACAN"@) {
        NavaidType::TACAN
    } else {
        NavaidType::Other
    }
}

impl NavaidType {
    /// The type's code.
    pub fn as_str(&self) -> (r: &'static str)
        ensures
            match self {
                NavaidType::VOR => r@ == "VOR"@,
                NavaidType::VORDME => r@ == "VORDME"@,
                NavaidType::DME => r@ == "DME"@,
                NavaidType::NDB => r@ == "NDB"@,
                NavaidType::TACAN => r@ == "TACAN"@,
                NavaidType::Other => r@ == "OTHER"@,
            },
    {
        match self {
            NavaidType::VOR => "VOR",
            NavaidType::VORDME => "VORDME",
            NavaidType::DME => "DME",
            NavaidType::NDB => "NDB",
            NavaidType::TACAN => "TACAN",
            NavaidType::Other => "OTHER",
        }
    }

    /// The type a text names, ignoring ASCII case; anything unrecognized is
    /// `Other`.
    pub fn from_str(s: &str) -> (r: Self)
        ensures
            r == spec_navaid_type_from(s@),
    {
        if matches_ci(s, "VOR") {
            NavaidType::VOR
        } else if matches_ci(s, "VORDME") || matches_ci(s, "VOR-DME") || matches_ci(s, "VOR/DME") {
            NavaidType::VORDME
        } else if matches_ci(s, "DME") {
            NavaidType::DME
        } else if matches_ci(s, "NDB") {
            NavaidType::NDB
        } else if matches_ci(s, "TACAN") {
            NavaidType::TACAN
        } else {
            NavaidType::Other
        }
    }
}

} // verus!
