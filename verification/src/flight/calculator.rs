//! Integer flight arithmetic.

use vstd::prelude::*;

verus! {

/// The estimated arrival time: the departure time plus the flight time,
/// both expressed in seconds since the epoch.
pub fn calculate_eta(departure_time: i64, flight_time_minutes: i32) -> (r: i64)
    requires
        i64::MIN <= departure_time + flight_time_minutes * 60 <= i64::MAX,
    ensures
        r == departure_time + flight_time_minutes * 60,
{
    departure_time + (flight_time_minutes as i64) * 60
}

} // verus!
