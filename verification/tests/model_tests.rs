use aerobase::device::identity::Identity;
use aerobase::models::airspace::{Airspace, AirspaceClass, AirspaceType};
use aerobase::models::airway::{Airway, AirwayType};
use aerobase::models::navaid::NavaidType;
use aerobase::models::waypoint::WaypointType;
use aerobase::sync::client::SyncClient;
use aerobase::sync::strategy::SyncStrategy;
use aerobase::sync::{SyncManager, SyncStatus};

#[test]
fn test_identity_creation() {
    let identity = Identity::new("device-123".to_string(), "fingerprint-456".to_string());

    assert!(identity.is_valid());
    assert_eq!(identity.device_id, "device-123");
}

#[test]
fn test_invalid_identity() {
    let mut identity = Identity::new("device-123".to_string(), "fingerprint-456".to_string());

    identity.is_authorized = false;
    assert!(!identity.is_valid());
}

#[test]
fn empty_fields_make_identity_invalid() {
    let identity = Identity::new(String::new(), "fp".to_string());
    assert!(!identity.is_valid());
    let identity = Identity::new("id".to_string(), String::new());
    assert!(!identity.is_valid());
}

#[test]
fn test_airspace_creation() {
    let airspace = Airspace::new(
        "AS001".to_string(),
        "Beijing CTR".to_string(),
        AirspaceType::ControlZone,
    );

    assert_eq!(airspace.name, "Beijing CTR");
    assert_eq!(airspace.airspace_type, AirspaceType::ControlZone);
}

#[test]
fn test_altitude_in_airspace() {
    let mut airspace = Airspace::new(
        "AS001".to_string(),
        "Test".to_string(),
        AirspaceType::TerminalArea,
    );

    airspace.lower_limit = Some(5000);
    airspace.upper_limit = Some(15000);

    assert!(airspace.is_altitude_in_airspace(10000));
    assert!(!airspace.is_altitude_in_airspace(3000));
    assert!(!airspace.is_altitude_in_airspace(20000));
}

#[test]
fn test_airspace_class_conversion() {
    assert_eq!(AirspaceClass::from_str("B"), AirspaceClass::ClassB);
    assert_eq!(AirspaceClass::from_str("class c"), AirspaceClass::ClassC);
    assert_eq!(AirspaceClass::ClassD.as_str(), "D");
}

#[test]
fn airspace_type_conversion() {
    assert_eq!(AirspaceType::from_str("ctr"), AirspaceType::ControlZone);
    assert_eq!(AirspaceType::from_str("Terminal Area"), AirspaceType::TerminalArea);
    assert_eq!(AirspaceType::from_str("P"), AirspaceType::Prohibited);
    assert_eq!(AirspaceType::from_str("nonsense"), AirspaceType::Other);
    assert_eq!(AirspaceType::Restricted.as_str(), "RESTRICTED");
}

#[test]
fn airspace_without_limits_contains_all_altitudes() {
    let airspace = Airspace::new("AS002".to_string(), "Open".to_string(), AirspaceType::Other);
    assert!(airspace.is_altitude_in_airspace(0));
    assert!(airspace.is_altitude_in_airspace(99000));
}

#[test]
fn test_airway_creation() {
    let airway = Airway::new("AW001".to_string(), "A1".to_string(), AirwayType::High);

    assert_eq!(airway.name, "A1");
    assert_eq!(airway.airway_type, AirwayType::High);
}

#[test]
fn test_altitude_validation() {
    let mut airway = Airway::new("AW001".to_string(), "A1".to_string(), AirwayType::High);

    airway.min_altitude = Some(10000);
    airway.max_altitude = Some(30000);

    assert!(airway.is_altitude_valid(20000));
    assert!(!airway.is_altitude_valid(5000));
    assert!(!airway.is_altitude_valid(35000));
}

#[test]
fn airway_type_conversion() {
    assert_eq!(AirwayType::from_str("high"), AirwayType::High);
    assert_eq!(AirwayType::from_str("RNAV"), AirwayType::RNAV);
    assert_eq!(AirwayType::from_str("whatever"), AirwayType::Other);
    assert_eq!(AirwayType::Low.as_str(), "LOW");
}

#[test]
fn test_navaid_type_conversion() {
    assert_eq!(NavaidType::from_str("VOR-DME"), NavaidType::VORDME);
    assert_eq!(NavaidType::from_str("vor"), NavaidType::VOR);
    assert_eq!(NavaidType::NDB.as_str(), "NDB");
}

#[test]
fn test_waypoint_type_conversion() {
    assert_eq!(WaypointType::from_str("VOR"), WaypointType::VOR);
    assert_eq!(WaypointType::from_str("vor"), WaypointType::VOR);
    assert_eq!(WaypointType::GPS.as_str(), "GPS");
}

#[test]
fn test_sync_client_creation() {
    let client = SyncClient::new("https://api.example.com".to_string());
    assert_eq!(client.endpoint(), "https://api.example.com");
}

#[test]
fn test_sync_strategy() {
    assert_eq!(SyncStrategy::Full.as_str(), "full");
    assert_eq!(SyncStrategy::Incremental.as_str(), "incremental");
    assert_eq!(SyncStrategy::OnDemand.as_str(), "on-demand");
}

#[test]
fn sync_manager_starts_idle() {
    let manager = SyncManager::new().unwrap();
    assert!(matches!(manager.status(), SyncStatus::Idle));
}
