//! Why a hardware backend gave no answer.

use vstd::prelude::*;

verus! {

/// Why a hardware backend gave no answer. Callers never see these as
/// failures: detection passes on to the next backend, and a read shows a
/// synthetic or a degraded reading in place of the one it could not get.
#[derive(Clone, Copy, Debug, PartialEq, Eq, Structural)]
pub enum BackendError {
    /// The backend's library could not be initialised.
    Unavailable,
    /// The device index no longer resolves to a device.
    DeviceVanished,
    /// A query that a result cannot do without failed.
    QueryFailed,
}

} // verus!
