//! The parallel group: steps that run side by side.

use vstd::prelude::*;
use crate::error::DigError;
use crate::error::Failure;
use crate::step::common::prepared_view;
use crate::step::common::Outcome;
use crate::step::common::SingularStepConfig;
use crate::step::common::StepEvaluationResult;
use crate::step::task_step::Prepared;
use crate::step::task_step::PreparedTaskStep;

verus! {

/// Steps that are evaluated side by side. None of them is a group itself.
#[derive(Debug, PartialEq)]
pub struct ParallelStepConfig {
    pub parallel: Vec<SingularStepConfig>,
}

/// The subtasks that the first `n` outcomes ask for, in order; the error
/// of the first outcome that is one.
pub open spec fn gathered(outcomes: Seq<Result<StepEvaluationResult, DigError>>, n: int) -> Result<
    Seq<Prepared>,
    Failure,
>
    decreases n,
{
    if n <= 0 || n > outcomes.len() {
        Ok(Seq::empty())
    } else {
        match gathered(outcomes, n - 1) {
            Err(e) => Err(e),
            Ok(done) => match outcomes[n - 1] {
                Err(e) => Err(e@),
                Ok(StepEvaluationResult::SubmitTasks(tasks)) => Ok(done + prepared_view(tasks@)),
                Ok(_) => Ok(done),
            },
        }
    }
}

/// What a group comes to: the error of the first child that failed; else
/// the subtasks of all children in one list; without any, an empty output.
pub open spec fn group_outcome(outcomes: Seq<Result<StepEvaluationResult, DigError>>) -> Result<
    Outcome,
    Failure,
> {
    match gathered(outcomes, outcomes.len() as int) {
        Err(e) => Err(e),
        Ok(tasks) => if tasks.len() == 0 {
            Ok(Outcome::Completed(Seq::empty()))
        } else {
            Ok(Outcome::SubmitTasks(tasks))
        },
    }
}

/// An error among the first `k` outcomes is the error of all of them.
pub proof fn lemma_gathered_error(
    outcomes: Seq<Result<StepEvaluationResult, DigError>>,
    k: int,
    n: int,
)
    requires
        0 <= k <= n <= outcomes.len(),
        gathered(outcomes, k) is Err,
    ensures
        gathered(outcomes, n) == gathered(outcomes, k),
    decreases n - k,
{
    if k < n {
        lemma_gathered_error(outcomes, k, n - 1);
    }
}

impl ParallelStepConfig {
    /// A group stores nothing.
    pub fn get_store(&self) -> (r: Option<&String>)
        ensures
            r is None,
    {
        None
    }

    /// What the group comes to, given what each child came to, in the
    /// order of the children.
    pub fn evaluate(&self, outcomes: Vec<Result<StepEvaluationResult, DigError>>) -> (r: Result<
        StepEvaluationResult,
        DigError,
    >)
        ensures
            match r {
                Ok(v) => group_outcome(outcomes@) == Ok::<Outcome, Failure>(v@),
                Err(e) => group_outcome(outcomes@) == Err::<Outcome, Failure>(e@),
            },
    {
        let ghost all = outcomes@;
        let mut pending = outcomes;
        let n = pending.len();
        let mut output: Vec<PreparedTaskStep> = Vec::new();
        let mut rest: Vec<Result<StepEvaluationResult, DigError>> = Vec::new();
        // The outcomes are taken from the back, so the list is turned first.
        while pending.len() > 0
            invariant
                pending.len() + rest.len() == n,
                n == all.len(),
                forall|j: int| 0 <= j < pending.len() ==> pending[j] == all[j],
                forall|j: int| 0 <= j < rest.len() ==> rest[j] == all[n - 1 - j],
            decreases pending.len(),
        {
            let last = pending.pop().unwrap();
            rest.push(last);
        }
        let mut i: usize = 0;
        assert(prepared_view(output@) =~= Seq::<Prepared>::empty());
        while rest.len() > 0
            invariant
                i + rest.len() == n,
                n == all.len(),
                all == outcomes@,
                forall|j: int| 0 <= j < rest.len() ==> rest[j] == all[n - 1 - j],
                gathered(all, i as int) == Ok::<Seq<Prepared>, Failure>(prepared_view(output@)),
            decreases rest.len(),
        {
            proof {
                if gathered(all, i + 1) is Err {
                    lemma_gathered_error(all, i + 1, n as int);
                }
            }
            let outcome = rest.pop().unwrap();
            assert(outcome == all[i as int]);
            match outcome {
                Err(error) => {
                    return Err(error);
                },
                Ok(StepEvaluationResult::SubmitTasks(tasks)) => {
                    let mut tasks = tasks;
                    let ghost before = prepared_view(output@);
                    let ghost added = prepared_view(tasks@);
                    output.append(&mut tasks);
                    assert(prepared_view(output@) =~= before + added);
                },
                Ok(_) => {},
            }
            i += 1;
        }
        if output.len() == 0 {
            let empty = String::new();
            Ok(StepEvaluationResult::Completed(empty))
        } else {
            Ok(StepEvaluationResult::SubmitTasks(output))
        }
    }
}

} // verus!
