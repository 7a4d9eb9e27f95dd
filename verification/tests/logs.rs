use horizon::{LogEvent, Logs, LogsView};

// Blank messages are filtered, messages beyond the capacity are dropped,
// and the queue hands lines out oldest first.
#[test]
fn log_queue_filters_and_bounds() {
    let mut logs = Logs::new(2);
    assert!(logs.write("first line\n"));
    assert!(!logs.write("   \n\t"));
    assert!(logs.write("second line\n"));
    assert!(!logs.write("dropped: queue full\n"));

    assert_eq!(logs.try_recv().as_deref(), Some("first line\n"));
    assert_eq!(logs.try_recv().as_deref(), Some("second line\n"));
    assert_eq!(logs.try_recv(), None);

    // Draining made room again.
    assert!(logs.write("third line\n"));
    assert_eq!(logs.try_recv().as_deref(), Some("third line\n"));
    logs.flush();
    assert_eq!(logs.try_recv(), None);
}

#[test]
fn zero_capacity_queue_accepts_nothing() {
    let mut logs = Logs::new(0);
    assert!(!logs.write("anything"));
    assert_eq!(logs.try_recv(), None);
}

// The view appends lines in arrival order and never rewrites them; a
// disconnect is recorded without losing history.
#[test]
fn log_view_appends_in_order() {
    let mut view = LogsView::new();
    view.check_logs(LogEvent::Line("a".to_string()));
    view.check_logs(LogEvent::Empty);
    view.check_logs(LogEvent::Line("b".to_string()));
    assert_eq!(view.logs, vec!["a".to_string(), "b".to_string()]);
    assert!(!view.disconnected);

    view.check_logs(LogEvent::Disconnected);
    assert!(view.disconnected);
    assert_eq!(view.logs, vec!["a".to_string(), "b".to_string()]);
}

// Queue and view glued together, the way the per-frame loop drives them.
#[test]
fn queue_drains_into_view() {
    let mut logs = Logs::new(8);
    let mut view = LogsView::new();
    logs.write("one");
    logs.write("two");
    loop {
        match logs.try_recv() {
            Some(line) => view.check_logs(LogEvent::Line(line)),
            None => {
                view.check_logs(LogEvent::Empty);
                break;
            }
        }
    }
    assert_eq!(view.logs, vec!["one".to_string(), "two".to_string()]);
}
