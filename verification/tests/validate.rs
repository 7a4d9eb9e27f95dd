use horizon::{validate_input, validate_lat_lon_input, AppError};

#[test]
fn validate_lat_lon_happy() {
    let (la, lo) = validate_lat_lon_input("37.233", "-115.800").unwrap();
    assert_eq!(
        (37.233, -115.800),
        (la.parse::<f64>().unwrap(), lo.parse::<f64>().unwrap())
    );
    let (la, lo) = validate_lat_lon_input("37°", "-115°").unwrap();
    assert_eq!(
        (37.0, -115.0),
        (la.parse::<f64>().unwrap(), lo.parse::<f64>().unwrap())
    );
}

#[test]
fn validate_lat_lon_happy_with_degrees() {
    let (la, lo) = validate_lat_lon_input("37.233", "-115.800").unwrap();
    assert_eq!(
        (37.233, -115.800),
        (la.parse::<f64>().unwrap(), lo.parse::<f64>().unwrap())
    );
    let (la, lo) = validate_lat_lon_input("37", "-115").unwrap();
    assert_eq!(
        (37.0, -115.0),
        (la.parse::<f64>().unwrap(), lo.parse::<f64>().unwrap())
    );
}

#[test]
#[should_panic]
fn validate_lat_lon_fail_empty() {
    validate_lat_lon_input("", "").unwrap();
}

#[test]
#[should_panic]
fn validate_lat_lon_fail_nonnumber_lat() {
    validate_lat_lon_input("area", "-115").unwrap();
}

#[test]
#[should_panic]
fn validate_lat_lon_fail_nonnumber_lon() {
    validate_lat_lon_input("37", "fiftyone").unwrap();
}

// Validation returns exactly the trimmed, degree-stripped text, so parsing
// its result equals stripping by hand and parsing directly.
#[test]
fn validation_matches_direct_parse() {
    let inputs = ["  37.233 ", "\t-115.800°\n", "+0.5°", "-.25", "37.", "1e3", "5.e3", "-2E-4"];
    for s in inputs {
        let got = validate_input(s).unwrap();
        let direct = s.trim().strip_suffix('°').unwrap_or(s.trim());
        assert_eq!(got, direct);
        assert_eq!(
            got.parse::<f64>().unwrap(),
            direct.parse::<f64>().unwrap()
        );
    }
}

#[test]
fn validation_accepts_non_finite_spellings() {
    assert_eq!(validate_input("inf").unwrap(), "inf");
    assert_eq!(validate_input("  -Infinity° ").unwrap(), "-Infinity");
    assert_eq!(validate_input("NaN").unwrap(), "NaN");
    assert!(validate_input("NaN").unwrap().parse::<f64>().unwrap().is_nan());
}

#[test]
fn validation_rejects_malformed_numbers() {
    let bad = [
        "", " ", "°", "+", "-", ".", "+.", "1.2.3", "--5", "3°7", "37 5", "e5", "5e", "1e2.5",
        "infx", "n a n", "0x10",
    ];
    for s in bad {
        let e = validate_input(s).unwrap_err();
        assert_eq!(e, AppError::InvalidInput);
        // Everything this validator rejects, a float parse of the stripped
        // text rejects too (the accepted grammar is exact).
        let direct = s.trim().strip_suffix('°').unwrap_or(s.trim());
        assert!(direct.parse::<f64>().is_err());
    }
}

#[test]
fn validation_is_idempotent() {
    for s in ["  37.233° ", "-115.800", " inf "] {
        let once = validate_input(s).unwrap();
        let twice = validate_input(&once).unwrap();
        assert_eq!(once, twice);
    }
}
