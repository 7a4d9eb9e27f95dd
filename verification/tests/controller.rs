use horizon::{AppError, FetchController, FetchState, PollResult};

// One whole failing cycle: request, dispatch, failing delivery, poll.
// The machine ends `Completed` and the data model keeps its prior value.
#[test]
fn fetch_failure_marked_as_completed() {
    let mut controller = FetchController::new(17i64);
    controller.request();
    assert_eq!(controller.state, FetchState::Requested);

    let cmd = controller.initiate("37.233", "-115.800").expect("fetch should dispatch");
    assert_eq!(controller.state, FetchState::InProgress);
    assert_eq!(cmd.latitude, "37.233");
    assert_eq!(cmd.longitude, "-115.800");

    controller.deliver(Err(AppError::Fetch("Failed to fetch weather".to_string())));
    let polled = controller.poll();
    assert_eq!(
        polled,
        PollResult::Failed(AppError::Fetch("Failed to fetch weather".to_string()))
    );
    assert!(controller.state == FetchState::Completed);
    assert_eq!(controller.data, 17);
}

// One whole successful cycle: the machine ends `Completed` and the data model
// equals the delivered payload exactly.
#[test]
fn fetch_success_marked_as_completed() {
    let mut controller = FetchController::new(17i64);
    controller.request();
    let cmd = controller.initiate("37.233", "-115.800").expect("fetch should dispatch");
    assert_eq!(cmd.latitude, "37.233");

    controller.deliver(Ok(42));
    let polled = controller.poll();
    assert_eq!(polled, PollResult::Updated);
    assert!(controller.state == FetchState::Completed);
    assert_eq!(controller.data, 42);
}

// Invalid coordinate text blocks the dispatch: no command is produced, the
// error modal is flagged, and the machine returns to `Completed` for a retry.
#[test]
fn invalid_input_blocks_dispatch() {
    let mut controller = FetchController::new(0i64);
    controller.request();
    assert!(controller.initiate("area", "-115").is_none());
    assert_eq!(controller.state, FetchState::Completed);
    assert!(controller.location_error_modal_open);
    assert_eq!(controller.data, 0);

    controller.dismiss_location_error();
    assert!(!controller.location_error_modal_open);

    // The user corrects the input and retries.
    controller.request();
    assert!(controller.initiate("37", "-115").is_some());
}

// Clicking while a fetch is pending or in flight never dispatches a second
// background task.
#[test]
fn no_duplicate_dispatch_while_not_completed() {
    let mut controller = FetchController::new(0i64);
    controller.request();
    assert!(controller.initiate("37", "-115").is_some());
    assert_eq!(controller.state, FetchState::InProgress);

    // Click again mid-flight: ignored, and the next tick dispatches nothing.
    controller.request();
    assert_eq!(controller.state, FetchState::InProgress);
    assert!(controller.initiate("37", "-115").is_none());

    // A click while merely requested does not stack either.
    let mut second = FetchController::new(0i64);
    second.request();
    second.request();
    assert_eq!(second.state, FetchState::Requested);
    assert!(second.initiate("37", "-115").is_some());
    assert!(second.initiate("37", "-115").is_none());
}

// Ticks with nothing to do change nothing.
#[test]
fn idle_ticks_change_nothing() {
    let mut controller = FetchController::new(5i64);
    assert!(controller.initiate("37", "-115").is_none());
    assert_eq!(controller.state, FetchState::Completed);
    assert_eq!(controller.poll(), PollResult::Idle);
    assert_eq!(controller.data, 5);
    assert!(!controller.location_error_modal_open);
}

// If two results land before one poll, only the most recent one is applied.
#[test]
fn overlapping_results_last_write_wins() {
    let mut controller = FetchController::new(0i64);
    controller.request();
    controller.initiate("37", "-115").expect("fetch should dispatch");
    controller.deliver(Err(AppError::ChannelDisconnected));
    controller.deliver(Ok(7));
    assert_eq!(controller.poll(), PollResult::Updated);
    assert_eq!(controller.data, 7);
    assert!(controller.state == FetchState::Completed);
    assert_eq!(controller.poll(), PollResult::Idle);
}
