//! The parts of a response that carry no measurements.

use vstd::prelude::*;

use crate::tags::{Severity, Units};

verus! {

/// A severe weather warning that a government authority issued for the
/// place of a request.
#[derive(Clone, Debug, PartialEq, Eq)]
pub struct Alert {
    /// What the warning is about, in detail.
    pub description: String,
    /// When the warning stops applying, in seconds since the Unix epoch.
    pub expires: Option<u64>,
    /// The regions the warning covers.
    pub regions: Vec<String>,
    pub severity: Severity,
    /// When the warning was issued, in seconds since the Unix epoch.
    pub time: u64,
    pub title: String,
    /// Where the full text of the warning is published.
    pub uri: String,
}

/// Metadata about a response: where its data came from, the units it is
/// written in, and any notice that the service is degraded.
#[derive(Clone, Debug, PartialEq, Eq)]
pub struct Flags {
    /// A notice that data for the place is unavailable, where there is one.
    pub darksky_unavailable: Option<String>,
    /// The data sources of the response.
    pub sources: Vec<String>,
    pub units: Units,
}

} // verus!
