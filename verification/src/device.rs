//! Device handles and the ways a resolution can fail.

use vstd::prelude::*;

verus! {

/// One resolved block device, named by the major/minor pair under which the
/// operating system knows it. Two handles are equal exactly when both numbers
/// are equal.
#[derive(Clone, Copy, Debug, PartialEq, Eq, Structural, Hash)]
pub struct DeviceHandle {
    pub major: u32,
    pub minor: u32,
}

/// Why a resolution, or one stage of it, produced no device.
#[derive(Clone, Copy, Debug, PartialEq, Eq, Structural, Hash)]
pub enum ResolveError {
    /// A token matched nothing in the device cache.
    NotFound,
    /// Neither the token nor the explicit path produced a candidate device.
    DeviceNotFound,
    /// The partition table has no entry with the requested number.
    PartitionNotFound,
    /// The partition exists but its table format carries no UUID for it.
    PartitionUuidMissing,
    /// The oracle could not probe, open or describe a device.
    OracleError,
}

} // verus!
