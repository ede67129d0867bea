//! The questions the resolver puts to the block-device oracle and the answers
//! it understands.
//!
//! Every type that carries text is generic in the text type: `String` in
//! running code, `Seq<char>` in specifications. The view of a running value is
//! the same value with each string replaced by its characters.

use vstd::prelude::*;
use crate::device::DeviceHandle;

verus! {

/// One question to the oracle.
#[derive(Clone, Debug, PartialEq, Eq)]
pub enum Query<T> {
    /// Take a fresh device cache, scan every visible block device into it and
    /// look up the device path that matches the token.
    Lookup { token: T },
    /// Open the device node at this path.
    Open { path: T },
    /// Find the whole disk behind this device.
    WholeDisk { device: DeviceHandle },
    /// Give the canonical name of this device.
    Name { device: DeviceHandle },
    /// Probe the partition table of the named disk for the entry with this
    /// number.
    Partition { disk: T, number: i32 },
}

/// One answer from the oracle.
#[derive(Clone, Debug, PartialEq, Eq)]
pub enum Reply<T> {
    /// The device path that matches a token.
    Path(T),
    /// The device that was opened or walked to.
    Device(DeviceHandle),
    /// The canonical name of a device.
    Name(T),
    /// The partition entry exists; its UUID, if the table format carries one.
    Partition(Option<[u8; 16]>),
    /// Nothing matches the token, or the table has no entry with the number.
    Absent,
    /// The oracle could not do what was asked.
    Failed,
}

impl View for Query<String> {
    type V = Query<Seq<char>>;

    open spec fn view(&self) -> Query<Seq<char>> {
        match *self {
            Query::Lookup { token } => Query::Lookup { token: token@ },
            Query::Open { path } => Query::Open { path: path@ },
            Query::WholeDisk { device } => Query::WholeDisk { device },
            Query::Name { device } => Query::Name { device },
            Query::Partition { disk, number } => Query::Partition { disk: disk@, number },
        }
    }
}

impl View for Reply<String> {
    type V = Reply<Seq<char>>;

    open spec fn view(&self) -> Reply<Seq<char>> {
        match *self {
            Reply::Path(path) => Reply::Path(path@),
            Reply::Device(device) => Reply::Device(device),
            Reply::Name(name) => Reply::Name(name@),
            Reply::Partition(uuid) => Reply::Partition(uuid),
            Reply::Absent => Reply::Absent,
            Reply::Failed => Reply::Failed,
        }
    }
}

} // verus!
