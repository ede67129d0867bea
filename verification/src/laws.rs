//! What holds of every resolution, whatever the oracle answers.
//!
//! Each law is stated twice over: of the meaning of a request (`resolve` and
//! its parts) and of the machine driven by the oracle (`drive`, `run`).

use vstd::prelude::*;
use crate::device::{DeviceHandle, ResolveError};
use crate::oracle::{Query, Reply};
use crate::partuuid::partuuid_token_spec;
use crate::refinement::{drive, lemma_run_reaches_outcome, run, theorem_machine_resolves};
use crate::request::{Resolution, ResolutionRequest};
use crate::resolution::{
    candidate, canonical_name, is_whole_disk, open_path, partition_descent, partition_uuid, refine,
    resolve, resolve_token, Oracle,
};
use crate::resolver::{on_device, with_candidate, Step};

verus! {

/// A request with neither token nor path fails with `DeviceNotFound`, and the
/// machine says so at once, before any question to the oracle.
pub proof fn law_no_source_is_device_not_found(
    oracle: Oracle,
    request: ResolutionRequest<Seq<char>>,
)
    requires
        request.token is None,
        request.path is None,
    ensures
        request.begin() == Step::<Seq<char>>::Failed(ResolveError::DeviceNotFound),
        drive(oracle, request) == Some(
            Err::<Resolution<Seq<char>>, ResolveError>(ResolveError::DeviceNotFound),
        ),
        resolve(oracle, request) == Err::<Resolution<Seq<char>>, ResolveError>(
            ResolveError::DeviceNotFound,
        ),
{
    theorem_machine_resolves(oracle, request);
}

/// The path overrides the token: where both are given and both resolve, the
/// candidate is the path's device, the machine goes on from the candidate
/// check with that device, and the request resolves as it would without the
/// token.
pub proof fn law_path_overrides_token(
    oracle: Oracle,
    request: ResolutionRequest<Seq<char>>,
    token: Seq<char>,
    path: Seq<char>,
    by_token: DeviceHandle,
    by_path: DeviceHandle,
)
    requires
        request.token == Some(token),
        request.path == Some(path),
        resolve_token(oracle, token) == Ok::<DeviceHandle, ResolveError>(by_token),
        open_path(oracle, path) == Ok::<DeviceHandle, ResolveError>(by_path),
    ensures
        candidate(oracle, request) == Ok::<Option<DeviceHandle>, ResolveError>(Some(by_path)),
        drive(oracle, request) == run(
            oracle,
            with_candidate(Some(by_path), request.parent, request.partno),
            6,
        ),
        resolve(oracle, request) == resolve(
            oracle,
            ResolutionRequest { token: None, ..request },
        ),
{
    theorem_machine_resolves(oracle, request);
    lemma_run_reaches_outcome(
        oracle,
        with_candidate(Some(by_path), request.parent, request.partno),
        6,
    );
}

/// A token that misses the cache, with no path to fall back on, fails with
/// `DeviceNotFound`: the miss itself is never the error of a request.
pub proof fn law_token_miss_is_device_not_found(
    oracle: Oracle,
    request: ResolutionRequest<Seq<char>>,
    token: Seq<char>,
)
    requires
        request.token == Some(token),
        request.path is None,
        resolve_token(oracle, token) == Err::<DeviceHandle, ResolveError>(ResolveError::NotFound),
    ensures
        candidate(oracle, request) == Ok::<Option<DeviceHandle>, ResolveError>(None),
        drive(oracle, request) == Some(
            Err::<Resolution<Seq<char>>, ResolveError>(ResolveError::DeviceNotFound),
        ),
        resolve(oracle, request) == Err::<Resolution<Seq<char>>, ResolveError>(
            ResolveError::DeviceNotFound,
        ),
{
    theorem_machine_resolves(oracle, request);
}

/// A token that misses the cache is passed over where a path is given: the
/// request resolves as it would without the token.
pub proof fn law_token_miss_falls_back_to_path(
    oracle: Oracle,
    request: ResolutionRequest<Seq<char>>,
    token: Seq<char>,
)
    requires
        request.token == Some(token),
        request.path is Some,
        resolve_token(oracle, token) == Err::<DeviceHandle, ResolveError>(ResolveError::NotFound),
    ensures
        candidate(oracle, request) == candidate(
            oracle,
            ResolutionRequest { token: None, ..request },
        ),
        resolve(oracle, request) == resolve(
            oracle,
            ResolutionRequest { token: None, ..request },
        ),
        drive(oracle, request) == drive(oracle, ResolutionRequest { token: None, ..request }),
{
    theorem_machine_resolves(oracle, request);
    theorem_machine_resolves(oracle, ResolutionRequest { token: None, ..request });
}

/// `DeviceNotFound` is the candidate check and nothing else: a request fails
/// with it exactly when it gives no path and its token is absent or misses the
/// cache.
pub proof fn law_device_not_found_means_no_candidate(
    oracle: Oracle,
    request: ResolutionRequest<Seq<char>>,
)
    ensures
        resolve(oracle, request) == Err::<Resolution<Seq<char>>, ResolveError>(
            ResolveError::DeviceNotFound,
        ) <==> candidate(oracle, request) == Ok::<Option<DeviceHandle>, ResolveError>(None),
        candidate(oracle, request) == Ok::<Option<DeviceHandle>, ResolveError>(None) <==> {
            &&& request.path is None
            &&& request.token matches Some(token) ==> resolve_token(oracle, token) == Err::<
                DeviceHandle,
                ResolveError,
            >(ResolveError::NotFound)
        },
        drive(oracle, request) == Some(
            Err::<Resolution<Seq<char>>, ResolveError>(ResolveError::DeviceNotFound),
        ) <==> candidate(oracle, request) == Ok::<Option<DeviceHandle>, ResolveError>(None),
{
    theorem_machine_resolves(oracle, request);
}

/// The parent walk changes nothing for a whole disk: where the candidate is
/// its own whole disk, the walk gives the same device, and the request
/// resolves as it would without the walk.
pub proof fn law_parent_walk_keeps_whole_disk(
    oracle: Oracle,
    request: ResolutionRequest<Seq<char>>,
    disk: DeviceHandle,
)
    requires
        candidate(oracle, request) == Ok::<Option<DeviceHandle>, ResolveError>(Some(disk)),
        is_whole_disk(oracle, disk),
    ensures
        refine(oracle, disk, true, None) == Ok::<DeviceHandle, ResolveError>(disk),
        refine(oracle, disk, true, request.partno) == refine(oracle, disk, false, request.partno),
        run(oracle, with_candidate(Some(disk), true, request.partno), 6) == run(
            oracle,
            with_candidate(Some(disk), false, request.partno),
            6,
        ),
        resolve(oracle, ResolutionRequest { parent: true, ..request }) == resolve(
            oracle,
            ResolutionRequest { parent: false, ..request },
        ),
        drive(oracle, ResolutionRequest { parent: true, ..request }) == drive(
            oracle,
            ResolutionRequest { parent: false, ..request },
        ),
{
    lemma_run_reaches_outcome(oracle, with_candidate(Some(disk), true, request.partno), 6);
    lemma_run_reaches_outcome(oracle, with_candidate(Some(disk), false, request.partno), 6);
    theorem_machine_resolves(oracle, ResolutionRequest { parent: true, ..request });
    theorem_machine_resolves(oracle, ResolutionRequest { parent: false, ..request });
}

/// A resolved request gives one device and that device's own name: the name
/// is what the oracle calls the device, and the device is what the candidate
/// was refined to.
pub proof fn law_resolved_name_is_canonical(
    oracle: Oracle,
    request: ResolutionRequest<Seq<char>>,
    resolution: Resolution<Seq<char>>,
)
    requires
        drive(oracle, request) == Some(Ok::<Resolution<Seq<char>>, ResolveError>(resolution)),
    ensures
        resolve(oracle, request) == Ok::<Resolution<Seq<char>>, ResolveError>(resolution),
        canonical_name(oracle, resolution.device) == Ok::<Seq<char>, ResolveError>(
            resolution.name,
        ),
        exists|first: DeviceHandle|
            candidate(oracle, request) == Ok::<Option<DeviceHandle>, ResolveError>(Some(first))
                && refine(oracle, first, request.parent, request.partno) == Ok::<
                DeviceHandle,
                ResolveError,
            >(resolution.device),
{
    theorem_machine_resolves(oracle, request);
    let first = candidate(oracle, request)->Ok_0->Some_0;
    assert(candidate(oracle, request) == Ok::<Option<DeviceHandle>, ResolveError>(Some(first))
        && refine(oracle, first, request.parent, request.partno) == Ok::<
        DeviceHandle,
        ResolveError,
    >(resolution.device));
}

/// The request that names a partition by its UUID alone.
pub open spec fn partuuid_request(uuid: [u8; 16]) -> ResolutionRequest<Seq<char>> {
    ResolutionRequest {
        token: Some(partuuid_token_spec(uuid@)),
        path: None,
        parent: false,
        partno: None,
    }
}

/// The descent round trip: where partition `number` of the parent disk
/// carries the UUID `uuid`, the descent reaches exactly the device that the
/// token `PARTUUID=<uuid>` resolves to, and a request for that token alone
/// resolves to the same device under the same name.
pub proof fn law_descent_round_trip(
    oracle: Oracle,
    parent: DeviceHandle,
    number: i32,
    disk: Seq<char>,
    uuid: [u8; 16],
)
    requires
        canonical_name(oracle, parent) == Ok::<Seq<char>, ResolveError>(disk),
        partition_uuid(oracle, disk, number) == Ok::<[u8; 16], ResolveError>(uuid),
    ensures
        partition_descent(oracle, parent, number) == resolve_token(
            oracle,
            partuuid_token_spec(uuid@),
        ),
        forall|device: DeviceHandle|
            partition_descent(oracle, parent, number) == Ok::<DeviceHandle, ResolveError>(device)
                <==> candidate(oracle, partuuid_request(uuid)) == Ok::<
                Option<DeviceHandle>,
                ResolveError,
            >(Some(device)),
        forall|resolution: Resolution<Seq<char>>|
            run(oracle, on_device(parent, Some(number)), 5) == Some(
                Ok::<Resolution<Seq<char>>, ResolveError>(resolution),
            ) <==> drive(oracle, partuuid_request(uuid)) == Some(
                Ok::<Resolution<Seq<char>>, ResolveError>(resolution),
            ),
{
    lemma_run_reaches_outcome(oracle, on_device(parent, Some(number)), 5);
    theorem_machine_resolves(oracle, partuuid_request(uuid));
}

/// The descent to a partition number that the table does not hold fails with
/// `PartitionNotFound`.
pub proof fn law_descent_without_partition(
    oracle: Oracle,
    parent: DeviceHandle,
    number: i32,
    disk: Seq<char>,
)
    requires
        canonical_name(oracle, parent) == Ok::<Seq<char>, ResolveError>(disk),
        oracle(Query::Partition { disk, number }) == Reply::<Seq<char>>::Absent,
    ensures
        partition_descent(oracle, parent, number) == Err::<DeviceHandle, ResolveError>(
            ResolveError::PartitionNotFound,
        ),
        run(oracle, on_device(parent, Some(number)), 5) == Some(
            Err::<Resolution<Seq<char>>, ResolveError>(ResolveError::PartitionNotFound),
        ),
{
    lemma_run_reaches_outcome(oracle, on_device(parent, Some(number)), 5);
}

/// The descent to a partition that carries no UUID fails with
/// `PartitionUuidMissing`.
pub proof fn law_descent_without_uuid(
    oracle: Oracle,
    parent: DeviceHandle,
    number: i32,
    disk: Seq<char>,
)
    requires
        canonical_name(oracle, parent) == Ok::<Seq<char>, ResolveError>(disk),
        oracle(Query::Partition { disk, number }) == Reply::<Seq<char>>::Partition(None),
    ensures
        partition_descent(oracle, parent, number) == Err::<DeviceHandle, ResolveError>(
            ResolveError::PartitionUuidMissing,
        ),
        run(oracle, on_device(parent, Some(number)), 5) == Some(
            Err::<Resolution<Seq<char>>, ResolveError>(ResolveError::PartitionUuidMissing),
        ),
{
    lemma_run_reaches_outcome(oracle, on_device(parent, Some(number)), 5);
}

} // verus!
