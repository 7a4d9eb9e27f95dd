//! The plain-valued parts of a forecast payload.
//!
//! The numeric body of a forecast (temperatures, wind, precipitation) is
//! floating-point and opaque to the controller, which replaces it
//! wholesale and never reads inside it. The types here are the pieces the
//! rest of the payload carries as plain text and times.

use vstd::prelude::*;

verus! {

/// A weather alert in effect for the requested location.
#[derive(Clone, Debug)]
pub struct Alert {
    /// Short headline of the alert.
    pub title: String,
    /// Names of the regions covered.
    pub regions: Vec<String>,
    /// Severity keyword reported by the provider.
    pub severity: String,
    /// Unix time the alert was issued.
    pub time: i64,
    /// Unix time the alert expires.
    pub expires: i64,
    /// Long-form description.
    pub description: String,
    /// Link to the full alert text.
    pub uri: String,
}

/// Grid coordinates of a forecast source model.
#[derive(Clone, Copy, Debug, PartialEq, Eq, Structural)]
pub struct SourceIdx {
    pub x: i64,
    pub y: i64,
}

} // verus!
