//! The kinds of failure that the privileged workflow tells apart.
use vstd::prelude::*;

verus! {

/// Why reading or applying the threshold, or persisting it, failed.
#[derive(Debug, Clone, Copy, PartialEq, Eq, Structural)]
pub enum Failure {
    /// Insufficient privilege to write the sysfs node or the unit file.
    PermissionDenied,
    /// The sysfs node or an expected directory is missing.
    NotFound,
    /// The sysfs node holds something other than a percentage.
    DataCorruption,
    /// Any other failure, a service-manager step that did not succeed included.
    Other,
}

} // verus!
