//! Flight plans: the plan record, a builder for it, and the rules and
//! arithmetic that hold of every plan.

use vstd::prelude::*;

pub mod calculator;
pub mod validator;

use vstd::string::StringExecFns;

verus! {

/// A flight plan: airports by ICAO code, cruise parameters, and the route
/// as waypoint identifiers.
#[derive(Debug, Clone)]
pub struct FlightPlan {
    pub departure: String,
    pub destination: String,
    pub alternate: Option<String>,
    pub cruise_altitude: i32,
    pub cruise_speed: i32,
    pub route: Vec<String>,
}

/// A builder that collects the parts of a flight plan; `build` demands
/// departure, destination, cruise altitude and cruise speed.
#[derive(Debug)]
pub struct FlightPlanBuilder {
    pub departure: Option<String>,
    pub destination: Option<String>,
    pub alternate: Option<String>,
    pub cruise_altitude: Option<i32>,
    pub cruise_speed: Option<i32>,
    pub route: Vec<String>,
}

impl FlightPlanBuilder {
    /// An empty builder.
    pub fn new() -> (r: Self)
        ensures
            r.departure is None,
            r.destination is None,
            r.alternate is None,
            r.cruise_altitude is None,
            r.cruise_speed is None,
            r.route@ =~= Seq::<String>::empty(),
    {
        FlightPlanBuilder {
            departure: None,
            destination: None,
            alternate: None,
            cruise_altitude: None,
            cruise_speed: None,
            route: Vec::new(),
        }
    }

    /// Sets the departure airport.
    pub fn departure(self, icao: &str) -> (r: Self)
        ensures
            r.departure matches Some(d) && d@ == icao@,
            r.destination == self.destination,
            r.alternate == self.alternate,
            r.cruise_altitude == self.cruise_altitude,
            r.cruise_speed == self.cruise_speed,
            r.route == self.route,
    {
        FlightPlanBuilder { departure: Some(icao.to_owned()), ..self }
    }

    /// Sets the destination airport.
    pub fn destination(self, icao: &str) -> (r: Self)
        ensures
            r.destination matches Some(d) && d@ == icao@,
            r.departure == self.departure,
            r.alternate == self.alternate,
            r.cruise_altitude == self.cruise_altitude,
            r.cruise_speed == self.cruise_speed,
            r.route == self.route,
    {
        FlightPlanBuilder { destination: Some(icao.to_owned()), ..self }
    }

    /// Sets the alternate airport.
    pub fn alternate(self, icao: &str) -> (r: Self)
        ensures
            r.alternate matches Some(d) && d@ == icao@,
            r.departure == self.departure,
            r.destination == self.destination,
            r.cruise_altitude == self.cruise_altitude,
            r.cruise_speed == self.cruise_speed,
            r.route == self.route,
    {
        FlightPlanBuilder { alternate: Some(icao.to_owned()), ..self }
    }

    /// Sets the cruise altitude in feet.
    pub fn cruise_altitude(self, altitude: i32) -> (r: Self)
        ensures
            r.cruise_altitude == Some(altitude),
            r.departure == self.departure,
            r.destination == self.destination,
            r.alternate == self.alternate,
            r.cruise_speed == self.cruise_speed,
            r.route == self.route,
    {
        FlightPlanBuilder { cruise_altitude: Some(altitude), ..self }
    }

    /// Sets the cruise speed in knots.
    pub fn cruise_speed(self, speed: i32) -> (r: Self)
        ensures
            r.cruise_speed == Some(speed),
            r.departure == self.departure,
            r.destination == self.destination,
            r.alternate == self.alternate,
            r.cruise_altitude == self.cruise_altitude,
            r.route == self.route,
    {
        FlightPlanBuilder { cruise_speed: Some(speed), ..self }
    }

    /// Appends a waypoint identifier to the route.
    pub fn add_waypoint(self, waypoint_id: &str) -> (r: Self)
        ensures
            r.route@.len() == self.route@.len() + 1,
            r.route@.last()@ == waypoint_id@,
            r.route@.take(self.route@.len() as int) == self.route@,
            r.departure == self.departure,
            r.destination == self.destination,
            r.alternate == self.alternate,
            r.cruise_altitude == self.cruise_altitude,
            r.cruise_speed == self.cruise_speed,
    {
        let mut route = self.route;
        route.push(waypoint_id.to_owned());
        proof {
            assert(route@.take(route@.len() - 1) =~= route@.drop_last());
        }
        FlightPlanBuilder {
            departure: self.departure,
            destination: self.destination,
            alternate: self.alternate,
            cruise_altitude: self.cruise_altitude,
            cruise_speed: self.cruise_speed,
            route,
        }
    }

    /// Builds the plan; each of departure, destination, cruise altitude
    /// and cruise speed must have been set, or an invalid-input error
    /// names the first one missing.
    pub fn build(self) -> (r: Result<FlightPlan, crate::error::AeroBaseError>)
        ensures
            r is Ok <==> (self.departure is Some && self.destination is Some
                && self.cruise_altitude is Some && self.cruise_speed is Some),
            r matches Ok(p) ==> {
                &&& Some(p.departure) == self.departure
                &&& Some(p.destination) == self.destination
                &&& p.alternate == self.alternate
                &&& Some(p.cruise_altitude) == self.cruise_altitude
                &&& Some(p.cruise_speed) == self.cruise_speed
                &&& p.route == self.route
            },
            r matches Err(e) ==> e is InvalidInput,
    {
        let departure = match self.departure {
            Some(d) => d,
            None => {
                return Err(
                    crate::error::AeroBaseError::InvalidInput(
                        String::from_str("Departure required"),
                    ),
                )
            },
        };
        let destination = match self.destination {
            Some(d) => d,
            None => {
                return Err(
                    crate::error::AeroBaseError::InvalidInput(
                        String::from_str("Destination required"),
                    ),
                )
            },
        };
        let cruise_altitude = match self.cruise_altitude {
            Some(a) => a,
            None => {
                return Err(
                    crate::error::AeroBaseError::InvalidInput(
                        String::from_str("Cruise altitude required"),
                    ),
                )
            },
        };
        let cruise_speed = match self.cruise_speed {
            Some(s) => s,
            None => {
                return Err(
                    crate::error::AeroBaseError::InvalidInput(
                        String::from_str("Cruise speed required"),
                    ),
                )
            },
        };
        Ok(
            FlightPlan {
                departure,
                destination,
                alternate: self.alternate,
                cruise_altitude,
                cruise_speed,
                route: self.route,
            },
        )
    }
}

impl Default for FlightPlanBuilder {
    /// An empty builder.
    fn default() -> (r: Self)
        ensures
            r.departure is None,
            r.destination is None,
            r.alternate is None,
            r.cruise_altitude is None,
            r.cruise_speed is None,
            r.route@ =~= Seq::<String>::empty(),
    {
        FlightPlanBuilder::new()
    }
}

} // verus!
