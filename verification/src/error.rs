use vstd::prelude::*;

verus! {

/// Everything that can go wrong while driving the `helm` binary.
///
/// Construction failures (`HelmNotInstalled`, `HelmVersionNotFound`) are
/// distinct from per-call failures, and connectivity trouble
/// (`FailedToConnect`) is distinct from malformed output (`Utf8Error`,
/// `Serde`).  A non-zero exit without a recognized stderr marker is the
/// generic `CommandFailed`, carrying the captured stderr for diagnosis.
#[derive(Debug, Clone, PartialEq, Eq)]
pub enum HelmError {
    /// The `helm` executable could not be located or spawned.
    HelmNotInstalled,
    /// The binary ran, but its version output lacked the expected marker;
    /// carries the unrecognized output.
    HelmVersionNotFound(String),
    /// Stderr of a read operation carried the cluster-unreachable marker.
    FailedToConnect,
    /// Subprocess output was not valid UTF-8.
    Utf8Error,
    /// Stdout did not decode against the expected JSON shape; carries the
    /// decode diagnostic.
    Serde(String),
    /// The subprocess failed without a recognized stderr marker; carries the
    /// captured stderr.
    CommandFailed(String),
}

} // verus!
