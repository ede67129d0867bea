//! What a caller asks for and what a successful resolution hands back.

use vstd::prelude::*;
use crate::device::DeviceHandle;

verus! {

/// One resolution request. Every part is optional; a request with neither
/// token nor path names no device at all.
#[derive(Clone, Debug, PartialEq, Eq)]
pub struct ResolutionRequest<T> {
    /// A `KEY=VALUE` token, or a bare key, to look up in the device cache.
    pub token: Option<T>,
    /// An explicit device path. Where both are given, the path wins.
    pub path: Option<T>,
    /// Resolve to the whole disk behind the device.
    pub parent: bool,
    /// Resolve to the partition with this number on the device.
    pub partno: Option<i32>,
}

/// The device a request resolved to, with its canonical name.
#[derive(Clone, Debug, PartialEq, Eq)]
pub struct Resolution<T> {
    pub device: DeviceHandle,
    pub name: T,
}

impl View for ResolutionRequest<String> {
    type V = ResolutionRequest<Seq<char>>;

    open spec fn view(&self) -> ResolutionRequest<Seq<char>> {
        ResolutionRequest {
            token: self.token.deep_view(),
            path: self.path.deep_view(),
            parent: self.parent,
            partno: self.partno,
        }
    }
}

impl View for Resolution<String> {
    type V = Resolution<Seq<char>>;

    open spec fn view(&self) -> Resolution<Seq<char>> {
        Resolution { device: self.device, name: self.name@ }
    }
}

} // verus!
