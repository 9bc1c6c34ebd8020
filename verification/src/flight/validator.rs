//! The rules a flight plan must satisfy on its own, before any lookup in
//! the navigation database.

use vstd::prelude::*;

use crate::error::AeroBaseError;
use crate::flight::FlightPlan;
use vstd::string::StringExecFns;

verus! {

/// The plan's self-contained validity: distinct departure and destination,
/// cruise altitude between 1000 and 60000 feet, cruise speed between 50
/// and 1000 knots.
pub open spec fn plan_fields_valid(plan: FlightPlan) -> bool {
    &&& plan.departure@ != plan.destination@
    &&& 1000 <= plan.cruise_altitude <= 60000
    &&& 50 <= plan.cruise_speed <= 1000
}

/// Checks the rules a plan must satisfy on its own; the airport and
/// waypoint existence checks against the navigation database come on top
/// of this.
pub fn validate_plan_basics(plan: &FlightPlan) -> (r: Result<bool, AeroBaseError>)
    ensures
        r is Ok <==> plan_fields_valid(*plan),
        r matches Ok(b) ==> b,
        r matches Err(e) ==> e is InvalidInput,
{
    if plan.departure == plan.destination {
        return Err(
            AeroBaseError::InvalidInput(
                String::from_str("Departure and destination cannot be the same"),
            ),
        );
    }
    if plan.cruise_altitude < 1000 || plan.cruise_altitude > 60000 {
        return Err(
            AeroBaseError::InvalidInput(
                String::from_str("Cruise altitude must be between 1000 and 60000 feet"),
            ),
        );
    }
    if plan.cruise_speed < 50 || plan.cruise_speed > 1000 {
        return Err(
            AeroBaseError::InvalidInput(
                String::from_str("Cruise speed must be between 50 and 1000 knots"),
            ),
        );
    }
    Ok(true)
}

} // verus!
