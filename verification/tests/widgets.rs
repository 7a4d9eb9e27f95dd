use horizon::{set_open, OpenWidgets, SunMoon, SunTimes, WidgetKind};

#[test]
fn set_open_inserts_and_removes() {
    let mut open = OpenWidgets::new();
    assert!(!open.contains(WidgetKind::Temperature));

    set_open(&mut open, WidgetKind::Temperature, true);
    set_open(&mut open, WidgetKind::SunMoon, true);
    assert!(open.contains(WidgetKind::Temperature));
    assert!(open.contains(WidgetKind::SunMoon));
    assert!(!open.contains(WidgetKind::Current));

    // Inserting an already-open widget changes nothing.
    set_open(&mut open, WidgetKind::Temperature, true);
    assert!(open.contains(WidgetKind::Temperature));

    set_open(&mut open, WidgetKind::Temperature, false);
    assert!(!open.contains(WidgetKind::Temperature));
    assert!(open.contains(WidgetKind::SunMoon));

    // Removing an already-hidden widget changes nothing.
    set_open(&mut open, WidgetKind::Current, false);
    assert!(!open.contains(WidgetKind::Current));
}

#[test]
fn sun_moon_caches_daily_times() {
    let mut widget = SunMoon::default();
    assert_eq!(widget.name(), "sun & moon");
    assert_eq!(widget.sunrise, None);

    widget.update_data(
        -7,
        Some(SunTimes { sunrise_time: Some(1000), sunset_time: Some(2000), time: 500 }),
    );
    assert_eq!(widget.offset, -7);
    assert_eq!(widget.sunrise, Some(1000));
    assert_eq!(widget.sunset, Some(2000));
    assert_eq!(widget.now, 500);

    // Without a daily entry, the offset updates but the times are kept.
    widget.update_data(3, None);
    assert_eq!(widget.offset, 3);
    assert_eq!(widget.sunrise, Some(1000));
    assert_eq!(widget.sunset, Some(2000));
    assert_eq!(widget.now, 500);
}
