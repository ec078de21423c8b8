use vstd::prelude::*;

verus! {

/// A representation of an installed chart, as one record of the listing
/// output.  All fields are plain strings; `updated` is an opaque timestamp
/// string that is never parsed further.
#[derive(Debug, Clone, PartialEq, Eq)]
pub struct InstalledChart {
    /// The chart name
    pub name: String,
    /// The version of the app this chart installed
    pub app_version: String,
    /// The chart revision
    pub revision: String,
    /// Date/time when the chart was last updated
    pub updated: String,
    /// Status of the installed chart
    pub status: String,
    /// The ID of the chart that is installed
    pub chart: String,
}

} // verus!
