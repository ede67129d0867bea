//! What a request resolves to, stated directly over an oracle that answers
//! every question in one fixed way.
//!
//! This is the meaning of a resolution, with no machine in it: the token
//! resolver, the explicit-path opener, the parent walk and the partition
//! descent as functions of the oracle's answers, and their composition in the
//! order of precedence.

use vstd::prelude::*;
use crate::device::{DeviceHandle, ResolveError};
use crate::oracle::{Query, Reply};
use crate::partuuid::partuuid_token_spec;
use crate::request::{Resolution, ResolutionRequest};

verus! {

/// An oracle in specifications: its answer to each question.
pub type Oracle = spec_fn(Query<Seq<char>>) -> Reply<Seq<char>>;

/// Opening a device node: the device the oracle gives for the path.
pub open spec fn open_path(oracle: Oracle, path: Seq<char>) -> Result<DeviceHandle, ResolveError> {
    match oracle(Query::Open { path }) {
        Reply::Device(device) => Ok(device),
        _ => Err(ResolveError::OracleError),
    }
}

/// The token resolver: the device at the path that the cache gives for the
/// token. A token that matches nothing is `NotFound`.
pub open spec fn resolve_token(oracle: Oracle, token: Seq<char>) -> Result<
    DeviceHandle,
    ResolveError,
> {
    match oracle(Query::Lookup { token }) {
        Reply::Path(node) => open_path(oracle, node),
        Reply::Absent => Err(ResolveError::NotFound),
        _ => Err(ResolveError::OracleError),
    }
}

/// The parent walk: the whole disk behind a device.
pub open spec fn whole_disk(oracle: Oracle, device: DeviceHandle) -> Result<
    DeviceHandle,
    ResolveError,
> {
    match oracle(Query::WholeDisk { device }) {
        Reply::Device(disk) => Ok(disk),
        _ => Err(ResolveError::OracleError),
    }
}

/// A device that is its own whole disk.
pub open spec fn is_whole_disk(oracle: Oracle, device: DeviceHandle) -> bool {
    whole_disk(oracle, device) == Ok::<DeviceHandle, ResolveError>(device)
}

/// The canonical name of a device.
pub open spec fn canonical_name(oracle: Oracle, device: DeviceHandle) -> Result<
    Seq<char>,
    ResolveError,
> {
    match oracle(Query::Name { device }) {
        Reply::Name(name) => Ok(name),
        _ => Err(ResolveError::OracleError),
    }
}

/// The UUID of the partition with the given number in the named disk's
/// partition table.
pub open spec fn partition_uuid(oracle: Oracle, disk: Seq<char>, number: i32) -> Result<
    [u8; 16],
    ResolveError,
> {
    match oracle(Query::Partition { disk, number }) {
        Reply::Partition(Some(uuid)) => Ok(uuid),
        Reply::Partition(None) => Err(ResolveError::PartitionUuidMissing),
        Reply::Absent => Err(ResolveError::PartitionNotFound),
        _ => Err(ResolveError::OracleError),
    }
}

/// The partition descent: from a parent disk to the device of its partition
/// with the given number, found again through the cache by the partition's
/// `PARTUUID=` token.
pub open spec fn partition_descent(oracle: Oracle, parent: DeviceHandle, number: i32) -> Result<
    DeviceHandle,
    ResolveError,
> {
    match canonical_name(oracle, parent) {
        Err(error) => Err(error),
        Ok(disk) => match partition_uuid(oracle, disk, number) {
            Err(error) => Err(error),
            Ok(uuid) => resolve_token(oracle, partuuid_token_spec(uuid@)),
        },
    }
}

/// What the token contributes to the candidate: its device, or nothing where
/// there is no token or the token matches nothing.
pub open spec fn token_candidate(oracle: Oracle, token: Option<Seq<char>>) -> Result<
    Option<DeviceHandle>,
    ResolveError,
> {
    match token {
        None => Ok(None),
        Some(token) => match resolve_token(oracle, token) {
            Ok(device) => Ok(Some(device)),
            Err(ResolveError::NotFound) => Ok(None),
            Err(error) => Err(error),
        },
    }
}

/// The candidate before the parent walk and the partition descent: the
/// explicit path's device where a path is given, else the token's.
pub open spec fn candidate(oracle: Oracle, request: ResolutionRequest<Seq<char>>) -> Result<
    Option<DeviceHandle>,
    ResolveError,
> {
    match token_candidate(oracle, request.token) {
        Err(error) => Err(error),
        Ok(found) => match request.path {
            None => Ok(found),
            Some(path) => match open_path(oracle, path) {
                Ok(device) => Ok(Some(device)),
                Err(error) => Err(error),
            },
        },
    }
}

/// From a candidate to the final device: the parent walk where it is asked
/// for, then the partition descent where a number is given.
pub open spec fn refine(oracle: Oracle, device: DeviceHandle, parent: bool, partno: Option<i32>)
    -> Result<DeviceHandle, ResolveError> {
    let disk = if parent {
        whole_disk(oracle, device)
    } else {
        Ok(device)
    };
    match disk {
        Err(error) => Err(error),
        Ok(disk) => match partno {
            None => Ok(disk),
            Some(number) => partition_descent(oracle, disk, number),
        },
    }
}

/// A device together with its canonical name.
pub open spec fn named(oracle: Oracle, device: DeviceHandle) -> Result<
    Resolution<Seq<char>>,
    ResolveError,
> {
    match canonical_name(oracle, device) {
        Err(error) => Err(error),
        Ok(name) => Ok(Resolution { device, name }),
    }
}

/// What a request resolves to.
pub open spec fn resolve(oracle: Oracle, request: ResolutionRequest<Seq<char>>) -> Result<
    Resolution<Seq<char>>,
    ResolveError,
> {
    match candidate(oracle, request) {
        Err(error) => Err(error),
        Ok(None) => Err(ResolveError::DeviceNotFound),
        Ok(Some(device)) => match refine(oracle, device, request.parent, request.partno) {
            Err(error) => Err(error),
            Ok(device) => named(oracle, device),
        },
    }
}

} // verus!
