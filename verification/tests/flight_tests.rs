use aerobase::error::AeroBaseError;
use aerobase::flight::calculator::calculate_eta;
use aerobase::flight::validator::validate_plan_basics;
use aerobase::flight::FlightPlanBuilder;

#[test]
fn test_calculate_eta() {
    let departure = 1000;
    let flight_time = 120; // 2 hours
    let eta = calculate_eta(departure, flight_time);
    assert_eq!(eta, 1000 + 7200); // 7200 seconds = 2 hours
}

#[test]
fn test_flight_plan_builder() {
    let plan = FlightPlanBuilder::new()
        .departure("ZBAA")
        .destination("ZSSS")
        .cruise_altitude(35000)
        .cruise_speed(450)
        .build();

    assert!(plan.is_ok());
    let plan = plan.unwrap();
    assert_eq!(plan.departure, "ZBAA");
    assert_eq!(plan.destination, "ZSSS");
}

#[test]
fn test_flight_plan_builder_missing_fields() {
    let plan = FlightPlanBuilder::new().departure("ZBAA").build();

    assert!(plan.is_err());
}

#[test]
fn builder_collects_route_and_alternate() {
    let plan = FlightPlanBuilder::new()
        .departure("ZBAA")
        .destination("ZSSS")
        .alternate("ZSPD")
        .cruise_altitude(35000)
        .cruise_speed(450)
        .add_waypoint("WP1")
        .add_waypoint("WP2")
        .build()
        .unwrap();

    assert_eq!(plan.alternate.as_deref(), Some("ZSPD"));
    assert_eq!(plan.route, vec!["WP1".to_string(), "WP2".to_string()]);
}

#[test]
fn plan_basics_accept_a_sound_plan() {
    let plan = FlightPlanBuilder::new()
        .departure("ZBAA")
        .destination("ZSSS")
        .cruise_altitude(35000)
        .cruise_speed(450)
        .build()
        .unwrap();
    assert!(validate_plan_basics(&plan).unwrap());
}

#[test]
fn plan_basics_reject_equal_airports() {
    let plan = FlightPlanBuilder::new()
        .departure("ZBAA")
        .destination("ZBAA")
        .cruise_altitude(35000)
        .cruise_speed(450)
        .build()
        .unwrap();
    match validate_plan_basics(&plan) {
        Err(AeroBaseError::InvalidInput(_)) => {}
        other => panic!("expected InvalidInput, got {:?}", other),
    }
}

#[test]
fn plan_basics_reject_bad_altitude_and_speed() {
    let low = FlightPlanBuilder::new()
        .departure("ZBAA")
        .destination("ZSSS")
        .cruise_altitude(100)
        .cruise_speed(450)
        .build()
        .unwrap();
    assert!(matches!(validate_plan_basics(&low), Err(AeroBaseError::InvalidInput(_))));

    let fast = FlightPlanBuilder::new()
        .departure("ZBAA")
        .destination("ZSSS")
        .cruise_altitude(35000)
        .cruise_speed(2000)
        .build()
        .unwrap();
    assert!(matches!(validate_plan_basics(&fast), Err(AeroBaseError::InvalidInput(_))));
}

#[test]
fn eta_with_zero_flight_time_is_departure() {
    assert_eq!(calculate_eta(123456, 0), 123456);
}
