//! The machine against the meaning: driven by an oracle's answers, the
//! resolver asks at most nine questions and ends with exactly what the request
//! resolves to.

use vstd::prelude::*;
use crate::device::{DeviceHandle, ResolveError};
use crate::partuuid::partuuid_token_spec;
use crate::request::{Resolution, ResolutionRequest};
use crate::resolution::{
    named, open_path, partition_descent, partition_uuid, refine, resolve, resolve_token, Oracle,
};
use crate::resolver::{lemma_answer_advances, Stage, Step};

verus! {

impl Stage<Seq<char>> {
    /// What the rest of the resolution yields from this stage on, under an
    /// oracle that answers each question in one fixed way.
    pub open spec fn outcome(self, oracle: Oracle) -> Result<Resolution<Seq<char>>, ResolveError> {
        match self {
            Stage::TokenLookup { token, path, parent, partno } => resolve(
                oracle,
                ResolutionRequest { token: Some(token), path, parent, partno },
            ),
            Stage::TokenOpen { node, path, parent, partno } => match open_path(oracle, node) {
                Err(error) => Err(error),
                Ok(device) => match path {
                    Some(path) => resolve(
                        oracle,
                        ResolutionRequest { token: None, path: Some(path), parent, partno },
                    ),
                    None => finish(oracle, refine(oracle, device, parent, partno)),
                },
            },
            Stage::PathOpen { node, parent, partno } => resolve(
                oracle,
                ResolutionRequest { token: None, path: Some(node), parent, partno },
            ),
            Stage::ParentWalk { candidate, partno } => finish(
                oracle,
                refine(oracle, candidate, true, partno),
            ),
            Stage::DescentName { disk, number } => finish(
                oracle,
                partition_descent(oracle, disk, number),
            ),
            Stage::DescentProbe { name, number } => match partition_uuid(oracle, name, number) {
                Err(error) => Err(error),
                Ok(uuid) => finish(oracle, resolve_token(oracle, partuuid_token_spec(uuid@))),
            },
            Stage::DescentLookup { token } => finish(oracle, resolve_token(oracle, token)),
            Stage::DescentOpen { node } => finish(oracle, open_path(oracle, node)),
            Stage::FinalName { device } => named(oracle, device),
        }
    }
}

impl Step<Seq<char>> {
    /// What the resolution yields from this move on.
    pub open spec fn outcome(self, oracle: Oracle) -> Result<Resolution<Seq<char>>, ResolveError> {
        match self {
            Step::Ask(stage) => stage.outcome(oracle),
            Step::Resolved(resolution) => Ok(resolution),
            Step::Failed(error) => Err(error),
        }
    }
}

/// The last stage applied to the result of the stages before it: a failure
/// stays, a device gets its canonical name.
pub open spec fn finish(oracle: Oracle, device: Result<DeviceHandle, ResolveError>) -> Result<
    Resolution<Seq<char>>,
    ResolveError,
> {
    match device {
        Err(error) => Err(error),
        Ok(device) => named(oracle, device),
    }
}

/// Drives the machine from `step` with the oracle's answers, for at most
/// `fuel` questions. `None` where the questions run out before the machine is
/// done.
pub open spec fn run(oracle: Oracle, step: Step<Seq<char>>, fuel: nat) -> Option<
    Result<Resolution<Seq<char>>, ResolveError>,
>
    decreases fuel,
{
    match step {
        Step::Resolved(resolution) => Some(Ok(resolution)),
        Step::Failed(error) => Some(Err(error)),
        Step::Ask(stage) => if fuel == 0 {
            None
        } else {
            run(oracle, stage.answer(oracle(stage.query())), (fuel - 1) as nat)
        },
    }
}

/// One move keeps the outcome: under the oracle's own answer, the move after a
/// stage yields what the stage yields.
pub proof fn lemma_answer_keeps_outcome(oracle: Oracle, stage: Stage<Seq<char>>)
    ensures
        stage.answer(oracle(stage.query())).outcome(oracle) == stage.outcome(oracle),
{
}

/// From any move, the machine driven by the oracle ends within the move's
/// budget, and ends with the move's outcome.
pub proof fn lemma_run_reaches_outcome(oracle: Oracle, step: Step<Seq<char>>, fuel: nat)
    requires
        fuel >= step.budget(),
    ensures
        run(oracle, step, fuel) == Some(step.outcome(oracle)),
    decreases fuel,
{
    match step {
        Step::Ask(stage) => {
            let next = stage.answer(oracle(stage.query()));
            lemma_answer_advances(stage, oracle(stage.query()));
            lemma_answer_keeps_outcome(oracle, stage);
            lemma_run_reaches_outcome(oracle, next, (fuel - 1) as nat);
        },
        _ => {},
    }
}

/// The machine's result for a request: started on the request and driven by
/// the oracle for at most nine questions.
pub open spec fn drive(oracle: Oracle, request: ResolutionRequest<Seq<char>>) -> Option<
    Result<Resolution<Seq<char>>, ResolveError>,
> {
    run(oracle, request.begin(), 9)
}

/// The machine is right: started on a request and driven by the oracle, it
/// asks at most nine questions and ends with what the request resolves to.
pub proof fn theorem_machine_resolves(oracle: Oracle, request: ResolutionRequest<Seq<char>>)
    ensures
        request.begin().budget() <= 9,
        drive(oracle, request) == Some(resolve(oracle, request)),
{
    lemma_run_reaches_outcome(oracle, request.begin(), 9);
}

} // verus!
