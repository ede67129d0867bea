//! The resolver: a machine that turns a request into a sequence of questions
//! to the oracle and, from the answers, into one device or one failure.
//!
//! The machine never waits and never touches a device. Its user asks the
//! oracle the question of the current stage and hands the answer back; the
//! machine replies with the next stage or with the outcome. Stages come in one
//! order and none comes twice:
//!
//! token lookup, token open, path open, candidate check, parent walk,
//! partition descent (name, probe, lookup, open), final name.
//!
//! A stage whose input the request does not hold is passed over.

use vstd::prelude::*;
use crate::device::{DeviceHandle, ResolveError};
use crate::oracle::{Query, Reply};
use crate::partuuid::{partuuid_token, partuuid_token_spec};
use crate::request::{Resolution, ResolutionRequest};

verus! {

/// Where a resolution stands: the question that is out, and what is still to
/// be done once it is answered.
#[derive(Clone, Debug, PartialEq, Eq)]
pub enum Stage<T> {
    /// The request's token is being looked up in a fresh cache.
    TokenLookup { token: T, path: Option<T>, parent: bool, partno: Option<i32> },
    /// The device node that the cache gave for the token is being opened.
    TokenOpen { node: T, path: Option<T>, parent: bool, partno: Option<i32> },
    /// The request's explicit path is being opened.
    PathOpen { node: T, parent: bool, partno: Option<i32> },
    /// The whole disk behind the candidate is being sought.
    ParentWalk { candidate: DeviceHandle, partno: Option<i32> },
    /// Partition descent: the parent disk's canonical name is being fetched.
    DescentName { disk: DeviceHandle, number: i32 },
    /// Partition descent: the partition table of the disk with this name is
    /// being probed.
    DescentProbe { name: T, number: i32 },
    /// Partition descent: the partition's `PARTUUID=` token is being looked up
    /// in a fresh cache.
    DescentLookup { token: T },
    /// Partition descent: the partition's device node is being opened.
    DescentOpen { node: T },
    /// The final device's canonical name is being fetched.
    FinalName { device: DeviceHandle },
}

/// What the machine says after each move.
#[derive(Clone, Debug, PartialEq, Eq)]
pub enum Step<T> {
    /// Put the stage's question to the oracle and answer the stage with the
    /// reply.
    Ask(Stage<T>),
    /// The request resolved to this device.
    Resolved(Resolution<T>),
    /// The request failed.
    Failed(ResolveError),
}

impl View for Stage<String> {
    type V = Stage<Seq<char>>;

    open spec fn view(&self) -> Stage<Seq<char>> {
        match *self {
            Stage::TokenLookup { token, path, parent, partno } => Stage::TokenLookup {
                token: token@,
                path: path.deep_view(),
                parent,
                partno,
            },
            Stage::TokenOpen { node, path, parent, partno } => Stage::TokenOpen {
                node: node@,
                path: path.deep_view(),
                parent,
                partno,
            },
            Stage::PathOpen { node, parent, partno } => Stage::PathOpen {
                node: node@,
                parent,
                partno,
            },
            Stage::ParentWalk { candidate, partno } => Stage::ParentWalk { candidate, partno },
            Stage::DescentName { disk, number } => Stage::DescentName { disk, number },
            Stage::DescentProbe { name, number } => Stage::DescentProbe { name: name@, number },
            Stage::DescentLookup { token } => Stage::DescentLookup { token: token@ },
            Stage::DescentOpen { node } => Stage::DescentOpen { node: node@ },
            Stage::FinalName { device } => Stage::FinalName { device },
        }
    }
}

impl View for Step<String> {
    type V = Step<Seq<char>>;

    open spec fn view(&self) -> Step<Seq<char>> {
        match *self {
            Step::Ask(stage) => Step::Ask(stage@),
            Step::Resolved(resolution) => Step::Resolved(resolution@),
            Step::Failed(error) => Step::Failed(error),
        }
    }
}

/// The move once the token stage is over: an explicit path, where there is
/// one, is opened whatever the token gave; else the token's device, if any, is
/// the candidate.
pub open spec fn after_token(
    found: Option<DeviceHandle>,
    path: Option<Seq<char>>,
    parent: bool,
    partno: Option<i32>,
) -> Step<Seq<char>> {
    match path {
        Some(node) => Step::Ask(Stage::PathOpen { node, parent, partno }),
        None => with_candidate(found, parent, partno),
    }
}

/// The candidate check: without a candidate the request fails; with one, the
/// parent walk comes first where it is asked for.
pub open spec fn with_candidate(
    candidate: Option<DeviceHandle>,
    parent: bool,
    partno: Option<i32>,
) -> Step<Seq<char>> {
    match candidate {
        None => Step::Failed(ResolveError::DeviceNotFound),
        Some(device) => if parent {
            Step::Ask(Stage::ParentWalk { candidate: device, partno })
        } else {
            on_device(device, partno)
        },
    }
}

/// The move once the parent walk is over or was not asked for: descend to the
/// numbered partition where one is asked for, else finish.
pub open spec fn on_device(device: DeviceHandle, partno: Option<i32>) -> Step<Seq<char>> {
    match partno {
        Some(number) => Step::Ask(Stage::DescentName { disk: device, number }),
        None => Step::Ask(Stage::FinalName { device }),
    }
}

impl ResolutionRequest<Seq<char>> {
    /// The first move for a request.
    pub open spec fn begin(self) -> Step<Seq<char>> {
        match self.token {
            Some(token) => Step::Ask(
                Stage::TokenLookup {
                    token,
                    path: self.path,
                    parent: self.parent,
                    partno: self.partno,
                },
            ),
            None => after_token(None, self.path, self.parent, self.partno),
        }
    }
}

impl Stage<Seq<char>> {
    /// The most questions that can still be asked from this stage on, its own
    /// included.
    pub open spec fn budget(self) -> nat {
        match self {
            Stage::TokenLookup { .. } => 9,
            Stage::TokenOpen { .. } => 8,
            Stage::PathOpen { .. } => 7,
            Stage::ParentWalk { .. } => 6,
            Stage::DescentName { .. } => 5,
            Stage::DescentProbe { .. } => 4,
            Stage::DescentLookup { .. } => 3,
            Stage::DescentOpen { .. } => 2,
            Stage::FinalName { .. } => 1,
        }
    }

    /// The question that is out at this stage.
    pub open spec fn query(self) -> Query<Seq<char>> {
        match self {
            Stage::TokenLookup { token, .. } => Query::Lookup { token },
            Stage::TokenOpen { node, .. } => Query::Open { path: node },
            Stage::PathOpen { node, .. } => Query::Open { path: node },
            Stage::ParentWalk { candidate, .. } => Query::WholeDisk { device: candidate },
            Stage::DescentName { disk, .. } => Query::Name { device: disk },
            Stage::DescentProbe { name, number } => Query::Partition { disk: name, number },
            Stage::DescentLookup { token } => Query::Lookup { token },
            Stage::DescentOpen { node } => Query::Open { path: node },
            Stage::FinalName { device } => Query::Name { device },
        }
    }

    /// The move that follows when the oracle answers this stage with `reply`.
    /// A token that matches nothing is no failure at the token stage; every
    /// other miss, and every answer that does not fit the question, ends the
    /// resolution.
    pub open spec fn answer(self, reply: Reply<Seq<char>>) -> Step<Seq<char>> {
        match self {
            Stage::TokenLookup { token, path, parent, partno } => match reply {
                Reply::Path(node) => Step::Ask(Stage::TokenOpen { node, path, parent, partno }),
                Reply::Absent => after_token(None, path, parent, partno),
                _ => Step::Failed(ResolveError::OracleError),
            },
            Stage::TokenOpen { node, path, parent, partno } => match reply {
                Reply::Device(device) => after_token(Some(device), path, parent, partno),
                _ => Step::Failed(ResolveError::OracleError),
            },
            Stage::PathOpen { node, parent, partno } => match reply {
                Reply::Device(device) => with_candidate(Some(device), parent, partno),
                _ => Step::Failed(ResolveError::OracleError),
            },
            Stage::ParentWalk { candidate, partno } => match reply {
                Reply::Device(disk) => on_device(disk, partno),
                _ => Step::Failed(ResolveError::OracleError),
            },
            Stage::DescentName { disk, number } => match reply {
                Reply::Name(name) => Step::Ask(Stage::DescentProbe { name, number }),
                _ => Step::Failed(ResolveError::OracleError),
            },
            Stage::DescentProbe { name, number } => match reply {
                Reply::Partition(Some(uuid)) => Step::Ask(
                    Stage::DescentLookup { token: partuuid_token_spec(uuid@) },
                ),
                Reply::Partition(None) => Step::Failed(ResolveError::PartitionUuidMissing),
                Reply::Absent => Step::Failed(ResolveError::PartitionNotFound),
                _ => Step::Failed(ResolveError::OracleError),
            },
            Stage::DescentLookup { token } => match reply {
                Reply::Path(node) => Step::Ask(Stage::DescentOpen { node }),
                Reply::Absent => Step::Failed(ResolveError::NotFound),
                _ => Step::Failed(ResolveError::OracleError),
            },
            Stage::DescentOpen { node } => match reply {
                Reply::Device(device) => Step::Ask(Stage::FinalName { device }),
                _ => Step::Failed(ResolveError::OracleError),
            },
            Stage::FinalName { device } => match reply {
                Reply::Name(name) => Step::Resolved(Resolution { device, name }),
                _ => Step::Failed(ResolveError::OracleError),
            },
        }
    }
}

impl Step<Seq<char>> {
    /// The most questions that can still be asked after this move.
    pub open spec fn budget(self) -> nat {
        match self {
            Step::Ask(stage) => stage.budget(),
            _ => 0,
        }
    }
}

/// No stage comes twice: whatever the answer, the move that follows leaves
/// fewer questions than the stage had.
pub proof fn lemma_answer_advances(stage: Stage<Seq<char>>, reply: Reply<Seq<char>>)
    ensures
        stage.answer(reply).budget() < stage.budget(),
{
}

impl Step<String> {
    fn after_token(
        found: Option<DeviceHandle>,
        path: Option<String>,
        parent: bool,
        partno: Option<i32>,
    ) -> (step: Self)
        ensures
            step@ == after_token(found, path.deep_view(), parent, partno),
    {
        match path {
            Some(node) => Step::Ask(Stage::PathOpen { node, parent, partno }),
            None => Self::with_candidate(found, parent, partno),
        }
    }

    fn with_candidate(candidate: Option<DeviceHandle>, parent: bool, partno: Option<i32>) -> (step:
        Self)
        ensures
            step@ == with_candidate(candidate, parent, partno),
    {
        match candidate {
            None => Step::Failed(ResolveError::DeviceNotFound),
            Some(device) => if parent {
                Step::Ask(Stage::ParentWalk { candidate: device, partno })
            } else {
                Self::on_device(device, partno)
            },
        }
    }

    fn on_device(device: DeviceHandle, partno: Option<i32>) -> (step: Self)
        ensures
            step@ == on_device(device, partno),
    {
        match partno {
            Some(number) => Step::Ask(Stage::DescentName { disk: device, number }),
            None => Step::Ask(Stage::FinalName { device }),
        }
    }
}

impl ResolutionRequest<String> {
    /// Starts the resolution of this request. Asks the oracle nothing yet: the
    /// result is the first stage, or the failure of a request that names no
    /// device.
    pub fn begin(self) -> (step: Step<String>)
        ensures
            step@ == self@.begin(),
            self.token is None && self.path is None ==> step@ == Step::<Seq<char>>::Failed(
                ResolveError::DeviceNotFound,
            ),
    {
        match self.token {
            Some(token) => Step::Ask(
                Stage::TokenLookup {
                    token,
                    path: self.path,
                    parent: self.parent,
                    partno: self.partno,
                },
            ),
            None => Step::after_token(None, self.path, self.parent, self.partno),
        }
    }
}

impl Stage<String> {
    /// The question to put to the oracle at this stage.
    pub fn query(&self) -> (query: Query<String>)
        ensures
            query@ == self@.query(),
    {
        match self {
            Stage::TokenLookup { token, .. } => Query::Lookup { token: token.clone() },
            Stage::TokenOpen { node, .. } => Query::Open { path: node.clone() },
            Stage::PathOpen { node, .. } => Query::Open { path: node.clone() },
            Stage::ParentWalk { candidate, .. } => Query::WholeDisk { device: *candidate },
            Stage::DescentName { disk, .. } => Query::Name { device: *disk },
            Stage::DescentProbe { name, number } => Query::Partition {
                disk: name.clone(),
                number: *number,
            },
            Stage::DescentLookup { token } => Query::Lookup { token: token.clone() },
            Stage::DescentOpen { node } => Query::Open { path: node.clone() },
            Stage::FinalName { device } => Query::Name { device: *device },
        }
    }

    /// Takes the oracle's answer to this stage's question and makes the next
    /// move: the stage that follows, or the outcome. Fewer questions are left
    /// after it than before.
    pub fn answer(self, reply: Reply<String>) -> (step: Step<String>)
        ensures
            step@ == self@.answer(reply@),
            step@.budget() < self@.budget(),
    {
        match self {
            Stage::TokenLookup { token: _, path, parent, partno } => match reply {
                Reply::Path(node) => Step::Ask(Stage::TokenOpen { node, path, parent, partno }),
                Reply::Absent => Step::after_token(None, path, parent, partno),
                _ => Step::Failed(ResolveError::OracleError),
            },
            Stage::TokenOpen { node: _, path, parent, partno } => match reply {
                Reply::Device(device) => Step::after_token(Some(device), path, parent, partno),
                _ => Step::Failed(ResolveError::OracleError),
            },
            Stage::PathOpen { node: _, parent, partno } => match reply {
                Reply::Device(device) => Step::with_candidate(Some(device), parent, partno),
                _ => Step::Failed(ResolveError::OracleError),
            },
            Stage::ParentWalk { candidate: _, partno } => match reply {
                Reply::Device(disk) => Step::on_device(disk, partno),
                _ => Step::Failed(ResolveError::OracleError),
            },
            Stage::DescentName { disk: _, number } => match reply {
                Reply::Name(name) => Step::Ask(Stage::DescentProbe { name, number }),
                _ => Step::Failed(ResolveError::OracleError),
            },
            Stage::DescentProbe { name: _, number: _ } => match reply {
                Reply::Partition(Some(uuid)) => Step::Ask(
                    Stage::DescentLookup { token: partuuid_token(&uuid) },
                ),
                Reply::Partition(None) => Step::Failed(ResolveError::PartitionUuidMissing),
                Reply::Absent => Step::Failed(ResolveError::PartitionNotFound),
                _ => Step::Failed(ResolveError::OracleError),
            },
            Stage::DescentLookup { token: _ } => match reply {
                Reply::Path(node) => Step::Ask(Stage::DescentOpen { node }),
                Reply::Absent => Step::Failed(ResolveError::NotFound),
                _ => Step::Failed(ResolveError::OracleError),
            },
            Stage::DescentOpen { node: _ } => match reply {
                Reply::Device(device) => Step::Ask(Stage::FinalName { device }),
                _ => Step::Failed(ResolveError::OracleError),
            },
            Stage::FinalName { device } => match reply {
                Reply::Name(name) => Step::Resolved(Resolution { device, name }),
                _ => Step::Failed(ResolveError::OracleError),
            },
        }
    }
}

} // verus!
