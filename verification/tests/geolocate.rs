use horizon::{AppError, FetchState, GeoResponse, GeolocateController, PollResult};

// A successful lookup overwrites the two coordinate text fields with the
// resolved values and completes the cycle.
#[test]
fn geolocate_success_fills_coordinates() {
    let mut controller = GeolocateController::new();
    controller.request();
    assert!(controller.initiate());
    assert_eq!(controller.state, FetchState::InProgress);

    let mut geo = GeoResponse::default();
    geo.location.latitude = "51.5074".to_string();
    geo.location.longitude = "-0.1278".to_string();
    controller.deliver(Ok(geo));

    let mut lat = "37.233".to_string();
    let mut lon = "-115.800".to_string();
    assert_eq!(controller.poll(&mut lat, &mut lon), PollResult::Updated);
    assert_eq!(lat, "51.5074");
    assert_eq!(lon, "-0.1278");
    assert_eq!(controller.state, FetchState::Completed);
}

// A failed lookup leaves the coordinate fields untouched and completes the
// machine, handing the error back for logging.
#[test]
fn geolocate_failure_keeps_coordinates() {
    let mut controller = GeolocateController::new();
    controller.request();
    assert!(controller.initiate());
    controller.deliver(Err(AppError::Fetch("lookup failed".to_string())));

    let mut lat = "37.233".to_string();
    let mut lon = "-115.800".to_string();
    assert_eq!(
        controller.poll(&mut lat, &mut lon),
        PollResult::Failed(AppError::Fetch("lookup failed".to_string()))
    );
    assert_eq!(lat, "37.233");
    assert_eq!(lon, "-115.800");
    assert_eq!(controller.state, FetchState::Completed);
}

// Re-clicking while a lookup is outstanding dispatches nothing.
#[test]
fn geolocate_ignores_reclicks() {
    let mut controller = GeolocateController::new();
    controller.request();
    assert!(controller.initiate());
    controller.request();
    assert!(!controller.initiate());
    assert_eq!(controller.state, FetchState::InProgress);

    let mut lat = String::new();
    let mut lon = String::new();
    assert_eq!(controller.poll(&mut lat, &mut lon), PollResult::Idle);
    assert_eq!(controller.state, FetchState::InProgress);
}
