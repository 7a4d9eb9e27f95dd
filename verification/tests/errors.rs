use horizon::{Alert, AppError, SourceIdx};

#[test]
fn error_descriptions() {
    assert_eq!(
        AppError::InvalidInput.describe(),
        "Invalid input: number not parseable as float."
    );
    assert_eq!(AppError::Fetch("boom".to_string()).describe(), "boom");
    assert_eq!(
        AppError::ChannelDisconnected.describe(),
        "Result channel disconnected before sending."
    );
}

#[test]
fn payload_side_types_hold_plain_values() {
    let alert = Alert {
        title: "Dust Advisory".to_string(),
        regions: vec!["Lincoln County".to_string()],
        severity: "advisory".to_string(),
        time: 1_700_000_000,
        expires: 1_700_003_600,
        description: "Blowing dust reducing visibility.".to_string(),
        uri: "https://alerts.example/dust".to_string(),
    };
    assert_eq!(alert.expires - alert.time, 3600);
    assert_eq!(alert.regions.len(), 1);

    let idx = SourceIdx { x: 12, y: -3 };
    let copy = idx;
    assert_eq!(copy, SourceIdx { x: 12, y: -3 });
}
