use parking_system::spot::ParkingSpot;

#[test]
fn new_spot_is_empty() {
    let spot = ParkingSpot::new();
    assert!(!spot.is_occupied());
    assert_eq!(spot.customer_name(), None);
    assert_eq!(spot.vehicle_number(), None);
    assert_eq!(spot.reserved_at(), None);
}

#[test]
fn reserve_at_records_all_three_details() {
    let mut spot = ParkingSpot::new();
    spot.reserve_at("Alice".to_string(), "KA01AB1234".to_string(), 1_700_000_000);
    assert!(spot.is_occupied());
    assert_eq!(spot.customer_name(), Some("Alice"));
    assert_eq!(spot.vehicle_number(), Some("KA01AB1234"));
    assert_eq!(spot.reserved_at(), Some(1_700_000_000));
}

#[test]
fn reserve_at_replaces_what_the_spot_held() {
    let mut spot = ParkingSpot::new();
    spot.reserve_at("Alice".to_string(), "KA01AB1234".to_string(), 10);
    spot.reserve_at("Bob".to_string(), "MH12CD5678".to_string(), 20);
    assert_eq!(spot.customer_name(), Some("Bob"));
    assert_eq!(spot.vehicle_number(), Some("MH12CD5678"));
    assert_eq!(spot.reserved_at(), Some(20));
}

#[test]
fn release_at_returns_the_duration_and_empties_the_spot() {
    let mut spot = ParkingSpot::new();
    spot.reserve_at("Alice".to_string(), "KA01AB1234".to_string(), 1_000);
    assert_eq!(spot.release_at(8_200), Some(7_200));
    assert!(!spot.is_occupied());
    assert_eq!(spot.customer_name(), None);
    assert_eq!(spot.vehicle_number(), None);
    assert_eq!(spot.reserved_at(), None);
}

#[test]
fn release_at_the_moment_of_booking_lasts_no_time() {
    let mut spot = ParkingSpot::new();
    spot.reserve_at("Alice".to_string(), "KA01AB1234".to_string(), 1_000);
    assert_eq!(spot.release_at(1_000), Some(0));
}

#[test]
fn release_at_with_a_clock_that_stepped_back_lasts_no_time() {
    let mut spot = ParkingSpot::new();
    spot.reserve_at("Alice".to_string(), "KA01AB1234".to_string(), 1_000);
    assert_eq!(spot.release_at(999), Some(0));
    assert!(!spot.is_occupied());
}

#[test]
fn release_at_of_an_empty_spot_is_none() {
    let mut spot = ParkingSpot::new();
    assert_eq!(spot.release_at(5), None);
    assert!(!spot.is_occupied());
}

#[test]
fn reserve_stamps_the_spot_with_the_clock() {
    let mut spot = ParkingSpot::new();
    spot.reserve("Alice".to_string(), "KA01AB1234".to_string());
    assert!(spot.is_occupied());
    assert_eq!(spot.customer_name(), Some("Alice"));
    assert_eq!(spot.vehicle_number(), Some("KA01AB1234"));
    // Any clock of this century reads well past the year 2001.
    assert!(spot.reserved_at().unwrap() > 1_000_000_000);
}

#[test]
fn release_after_reserve_is_short_and_empties_the_spot() {
    let mut spot = ParkingSpot::new();
    spot.reserve("Alice".to_string(), "KA01AB1234".to_string());
    let duration = spot.release();
    assert!(duration.is_some());
    assert!(duration.unwrap() < 60);
    assert!(!spot.is_occupied());
    assert_eq!(spot.release(), None);
}
