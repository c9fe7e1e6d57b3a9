//! The session with the device: what the answer to its initialization means.

use crate::codes::{succeeded, STATUS_SUCCESS};
use vstd::prelude::*;

verus! {

/// The device refused the initialization. This ends the run.
#[derive(Clone, Copy, Debug, PartialEq, Eq, Structural)]
pub struct InitializationFailure {
    /// The status that the initialization reported.
    pub status: i32,
}

/// The version of the protocol that the device speaks.
#[derive(Clone, Copy, Debug, PartialEq, Eq, Structural)]
pub struct Version {
    pub major: i32,
    pub minor: i32,
}

/// What the answer to the initialization yields.
pub open spec fn version_negotiated(status: i32, major: i32, minor: i32) -> Result<
    Version,
    InitializationFailure,
> {
    if succeeded(status) {
        Ok(Version { major, minor })
    } else {
        Err(InitializationFailure { status })
    }
}

/// The protocol version, from the status of the initialization and the two
/// numbers that it wrote.
pub fn negotiate_version(status: i32, major: i32, minor: i32) -> (r: Result<
    Version,
    InitializationFailure,
>)
    ensures
        r == version_negotiated(status, major, minor),
{
    if status == STATUS_SUCCESS {
        Ok(Version { major, minor })
    } else {
        Err(InitializationFailure { status })
    }
}

} // verus!
