//! The questions a resolution asks: a stage whose input is absent is passed
//! over without a word to the oracle.

use vstd::prelude::*;
use crate::oracle::Query;
use crate::request::ResolutionRequest;
use crate::resolution::Oracle;
use crate::resolver::{lemma_answer_advances, Stage, Step};

verus! {

/// The questions that the machine puts to the oracle from `step` on, in
/// order, when the oracle's answers drive it for at most `fuel` questions.
pub open spec fn questions(oracle: Oracle, step: Step<Seq<char>>, fuel: nat) -> Seq<
    Query<Seq<char>>,
>
    decreases fuel,
{
    match step {
        Step::Ask(stage) => if fuel == 0 {
            Seq::empty()
        } else {
            seq![stage.query()] + questions(
                oracle,
                stage.answer(oracle(stage.query())),
                (fuel - 1) as nat,
            )
        },
        _ => Seq::empty(),
    }
}

impl Stage<Seq<char>> {
    /// A parent walk is out or can still come.
    pub open spec fn may_walk(self) -> bool {
        match self {
            Stage::TokenLookup { parent, .. } => parent,
            Stage::TokenOpen { parent, .. } => parent,
            Stage::PathOpen { parent, .. } => parent,
            Stage::ParentWalk { .. } => true,
            _ => false,
        }
    }

    /// A partition probe is out or can still come.
    pub open spec fn may_probe(self) -> bool {
        match self {
            Stage::TokenLookup { partno, .. } => partno is Some,
            Stage::TokenOpen { partno, .. } => partno is Some,
            Stage::PathOpen { partno, .. } => partno is Some,
            Stage::ParentWalk { partno, .. } => partno is Some,
            Stage::DescentName { .. } => true,
            Stage::DescentProbe { .. } => true,
            _ => false,
        }
    }
}

impl Step<Seq<char>> {
    /// A parent walk can still come after this move.
    pub open spec fn may_walk(self) -> bool {
        self matches Step::Ask(stage) && stage.may_walk()
    }

    /// A partition probe can still come after this move.
    pub open spec fn may_probe(self) -> bool {
        self matches Step::Ask(stage) && stage.may_probe()
    }
}

/// The machine asks no more questions than the move's budget allows, never
/// asks for a whole disk once no parent walk is due, and never probes a
/// partition table once no descent is due.
pub proof fn lemma_questions_follow_plan(oracle: Oracle, step: Step<Seq<char>>, fuel: nat)
    ensures
        questions(oracle, step, fuel).len() <= step.budget(),
        !step.may_walk() ==> forall|i: int|
            0 <= i < questions(oracle, step, fuel).len() ==> !(#[trigger] questions(
                oracle,
                step,
                fuel,
            )[i] is WholeDisk),
        !step.may_probe() ==> forall|i: int|
            0 <= i < questions(oracle, step, fuel).len() ==> !(#[trigger] questions(
                oracle,
                step,
                fuel,
            )[i] is Partition),
    decreases fuel,
{
    if let Step::Ask(stage) = step {
        if fuel > 0 {
            let next = stage.answer(oracle(stage.query()));
            let rest = questions(oracle, next, (fuel - 1) as nat);
            lemma_answer_advances(stage, oracle(stage.query()));
            lemma_questions_follow_plan(oracle, next, (fuel - 1) as nat);
            assert(questions(oracle, step, fuel) == seq![stage.query()] + rest);
            assert forall|i: int| 0 < i < questions(oracle, step, fuel).len() implies questions(
                oracle,
                step,
                fuel,
            )[i] == rest[i - 1] by {}
        }
    }
}

/// Absent inputs ask nothing: a request without the parent flag never asks
/// for a whole disk, a request without a partition number never has a
/// partition table probed, a request without a token starts with no lookup,
/// and a request with neither token nor path asks nothing at all.
pub proof fn law_absent_inputs_ask_nothing(oracle: Oracle, request: ResolutionRequest<Seq<char>>)
    ensures
        questions(oracle, request.begin(), 9).len() <= 9,
        !request.parent ==> forall|i: int|
            0 <= i < questions(oracle, request.begin(), 9).len() ==> !(#[trigger] questions(
                oracle,
                request.begin(),
                9,
            )[i] is WholeDisk),
        request.partno is None ==> forall|i: int|
            0 <= i < questions(oracle, request.begin(), 9).len() ==> !(#[trigger] questions(
                oracle,
                request.begin(),
                9,
            )[i] is Partition),
        request.token is None && questions(oracle, request.begin(), 9).len() > 0 ==> questions(
            oracle,
            request.begin(),
            9,
        )[0] == (Query::Open { path: request.path->Some_0 }),
        request.token is None && request.path is None ==> questions(
            oracle,
            request.begin(),
            9,
        ).len() == 0,
{
    lemma_questions_follow_plan(oracle, request.begin(), 9);
}

} // verus!
