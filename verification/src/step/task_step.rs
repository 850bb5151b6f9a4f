//! The step that spawns subtasks, once or fanned out over variables.

use vstd::prelude::*;
use crate::effect::replies;
use crate::effect::Answer;
use crate::effect::Halt;
use crate::effect::Pause;
use crate::effect::Reply;
use crate::error::DigError;
use crate::error::Failure;
use crate::gate::gates_from;
use crate::gate::gates_of;
use crate::gate::test_run_gates;
use crate::gate::RunGates;
use crate::raw::raw_entries;
use crate::raw::stacked_raw;
use crate::raw::RawVariableMap;
use crate::run_context::pairs_view;
use crate::run_context::updated;
use crate::run_context::Context;
use crate::run_context::DirConfig;
use crate::run_context::EnvConfig;
use crate::run_context::Pairs;
use crate::run_context::RunContext;
use crate::step::basic_step::env_of;
use crate::step::basic_step::step_result;
use crate::step::basic_step::text_of;
use crate::step::common::prepared_view;
use crate::step::common::Outcome;
use crate::step::common::StepEvaluationResult;
use crate::token::evaluate_tokens;
use crate::token::expand_text;
use crate::value::items_view;
use crate::value::lemma_array_view;
use crate::value::Json;
use crate::value::JsonValue;
use crate::vars::StackMode;
use crate::vars::VariableSet;
use crate::vars::Vars;

verus! {

/// Mathematical model of a [`PreparedTaskStep`].
pub struct Prepared {
    pub task: Seq<char>,
    pub vars: Vars,
    pub context: Context,
}

/// One subtask to run: the task's name, its variables and its context.
#[derive(Debug, PartialEq)]
pub struct PreparedTaskStep {
    pub task: String,
    pub vars: VariableSet,
    pub context: RunContext,
}

impl View for PreparedTaskStep {
    type V = Prepared;

    open spec fn view(&self) -> Prepared {
        Prepared { task: self.task@, vars: self.vars@, context: self.context@ }
    }
}

/// A step that runs another task: with its own variables or the caller's
/// locals, under its own overlays, once or once for each combination of
/// the values that `over` gives.
#[derive(Debug, PartialEq)]
pub struct TaskStepConfig {
    pub task: String,
    pub vars: Option<RawVariableMap>,
    pub env: EnvConfig,
    pub dir: DirConfig,
    pub run_if: Option<RunGates>,
    /// Pairs of a variable to bind and the expression that gives its values.
    pub over: Option<Vec<(String, String)>>,
    pub silent: bool,
}

/// The pairs of a fan-out; none is an empty list.
pub open spec fn over_of(over: Option<Vec<(String, String)>>) -> Pairs {
    match over {
        Some(p) => pairs_view(p@),
        None => Seq::empty(),
    }
}

/// The values that a source expression gives: the items of an array, or
/// the one value that is neither array nor object. An object is an error.
pub open spec fn fan_items(source: Seq<char>, vars: Vars) -> Result<Seq<Json>, Failure> {
    match expand_text(source, vars) {
        Err(e) => Err(e),
        Ok(Json::Array(items)) => Ok(items),
        Ok(Json::Object(_)) => Err(Failure::MapOverObject(source)),
        Ok(v) => Ok(seq![v]),
    }
}

/// The subtasks of the first `n` pairs of a fan-out. The last of them is
/// expanded first; for each of its values, in order, the value is bound to
/// the pair's variable and the pairs before it are fanned out under that.
/// Without pairs there is the one subtask.
pub open spec fn fanned(task: Seq<char>, pairs: Pairs, n: int, vars: Vars, ctx: Context) -> Result<
    Seq<Prepared>,
    Failure,
>
    decreases n, 1int, 0int,
{
    if n <= 0 || n > pairs.len() {
        Ok(seq![Prepared { task, vars, context: ctx }])
    } else {
        match fan_items(pairs[n - 1].1, vars) {
            Err(e) => Err(e),
            Ok(items) => fanned_items(task, pairs, n, vars, ctx, items, items.len() as int),
        }
    }
}

/// The subtasks for the first `m` values of pair `n - 1`, in order.
pub open spec fn fanned_items(
    task: Seq<char>,
    pairs: Pairs,
    n: int,
    vars: Vars,
    ctx: Context,
    items: Seq<Json>,
    m: int,
) -> Result<Seq<Prepared>, Failure>
    decreases n, 0int, m,
{
    if n <= 0 || n > pairs.len() || m <= 0 || m > items.len() {
        Ok(Seq::empty())
    } else {
        match fanned_items(task, pairs, n, vars, ctx, items, m - 1) {
            Err(e) => Err(e),
            Ok(done) => match fanned(
                task,
                pairs,
                n - 1,
                vars.insert(pairs[n - 1].0, items[m - 1]),
                ctx,
            ) {
                Err(e) => Err(e),
                Ok(more) => Ok(done + more),
            },
        }
    }
}

/// An error among the first `k` values is the error of all of them.
pub proof fn lemma_fanned_error(
    task: Seq<char>,
    pairs: Pairs,
    n: int,
    vars: Vars,
    ctx: Context,
    items: Seq<Json>,
    k: int,
    m: int,
)
    requires
        0 < n <= pairs.len(),
        0 <= k <= m <= items.len(),
        fanned_items(task, pairs, n, vars, ctx, items, k) is Err,
    ensures
        fanned_items(task, pairs, n, vars, ctx, items, m) == fanned_items(
            task,
            pairs,
            n,
            vars,
            ctx,
            items,
            k,
        ),
    decreases m - k,
{
    if k < m {
        lemma_fanned_error(task, pairs, n, vars, ctx, items, k, m - 1);
    }
}

/// The product of the first `n` sizes.
pub open spec fn product(sizes: Seq<nat>, n: int) -> nat
    decreases n,
{
    if n <= 0 || n > sizes.len() {
        1
    } else {
        product(sizes, n - 1) * sizes[n - 1]
    }
}

/// A fan-out emits as many subtasks as the product of the sizes of its
/// pairs. The sizes must not depend on the values bound on the way: `among`
/// holds of the environment at the start and of every environment that
/// binding a pair's variable reaches from one it holds of, and in all of
/// these pair `i` gives `sizes[i]` values.
pub proof fn lemma_fanout_count(
    task: Seq<char>,
    pairs: Pairs,
    n: int,
    vars: Vars,
    ctx: Context,
    sizes: Seq<nat>,
    among: spec_fn(Vars) -> bool,
)
    requires
        0 <= n <= pairs.len(),
        sizes.len() == pairs.len(),
        among(vars),
        forall|e: Vars, i: int, v: Json|
            among(e) && 0 <= i < pairs.len() ==> #[trigger] among(e.insert(pairs[i].0, v)),
        forall|e: Vars, i: int|
            among(e) && 0 <= i < pairs.len() ==> (#[trigger] fan_items(pairs[i].1, e)) is Ok
                && fan_items(pairs[i].1, e)->Ok_0.len() == sizes[i],
    ensures
        fanned(task, pairs, n, vars, ctx) is Ok,
        fanned(task, pairs, n, vars, ctx)->Ok_0.len() == product(sizes, n),
    decreases n, 1int, 0int,
{
    if n > 0 {
        let items = fan_items(pairs[n - 1].1, vars)->Ok_0;
        lemma_fanout_items(task, pairs, n, vars, ctx, sizes, among, items, items.len() as int);
        assert(product(sizes, n - 1) * sizes[n - 1] == sizes[n - 1] * product(sizes, n - 1))
            by (nonlinear_arith);
    }
}

/// The first `m` values of a pair emit `m` times the product of the sizes
/// of the pairs before it.
pub proof fn lemma_fanout_items(
    task: Seq<char>,
    pairs: Pairs,
    n: int,
    vars: Vars,
    ctx: Context,
    sizes: Seq<nat>,
    among: spec_fn(Vars) -> bool,
    items: Seq<Json>,
    m: int,
)
    requires
        0 < n <= pairs.len(),
        0 <= m <= items.len(),
        sizes.len() == pairs.len(),
        among(vars),
        forall|e: Vars, i: int, v: Json|
            among(e) && 0 <= i < pairs.len() ==> #[trigger] among(e.insert(pairs[i].0, v)),
        forall|e: Vars, i: int|
            among(e) && 0 <= i < pairs.len() ==> (#[trigger] fan_items(pairs[i].1, e)) is Ok
                && fan_items(pairs[i].1, e)->Ok_0.len() == sizes[i],
    ensures
        fanned_items(task, pairs, n, vars, ctx, items, m) is Ok,
        fanned_items(task, pairs, n, vars, ctx, items, m)->Ok_0.len() == m * product(sizes, n - 1),
    decreases n, 0int, m,
{
    if m > 0 {
        lemma_fanout_items(task, pairs, n, vars, ctx, sizes, among, items, m - 1);
        let bound = vars.insert(pairs[n - 1].0, items[m - 1]);
        assert(among(bound));
        lemma_fanout_count(task, pairs, n - 1, bound, ctx, sizes, among);
        let p = product(sizes, n - 1) as int;
        assert((m - 1) * p + p == m * p) by (nonlinear_arith);
    } else {
        let p = product(sizes, n - 1) as int;
        assert(0 * p == 0) by (nonlinear_arith);
    }
}

/// The outcome of a subtask step, with the index of the next answer: the
/// variables are stacked (the step's own over an empty local frame, or
/// else the caller's locals copied), the overlays applied, the gates
/// walked, and if they pass the subtasks fanned out.
pub open spec fn task_step_outcome(
    step: TaskStepConfig,
    vars: Vars,
    ctx: Context,
    answers: Seq<Reply>,
    at: int,
) -> (Result<Outcome, Halt>, int) {
    let stacked = match step.vars {
        None => (Ok::<Vars, Halt>(vars.stack(true)), at),
        Some(raw) => stacked_raw(
            raw_entries(raw),
            raw_entries(raw).len() as int,
            vars.stack(false),
            false,
            ctx,
            answers,
            at,
        ),
    };
    match stacked {
        (Err(h), n) => (Err(h), n),
        (Ok(v), n) => match updated(
            ctx,
            env_of(step.env),
            text_of(step.dir),
            step.silent,
            v,
            answers,
            n,
        ) {
            (Err(h), n2) => (Err(h), n2),
            (Ok(c), n2) => match gates_from(gates_of(step.run_if), 0, v, c, answers, n2) {
                (Err(h), n3) => (Err(h), n3),
                (Ok(Some((i, refusal))), n3) => (Ok(Outcome::Skipped(i, refusal.statement)), n3),
                (Ok(None), n3) => match fanned(
                    step.task@,
                    over_of(step.over),
                    over_of(step.over).len() as int,
                    v,
                    c,
                ) {
                    Ok(list) => (Ok(Outcome::SubmitTasks(list)), n3),
                    Err(e) => (Err(Halt::Fail(e)), n3),
                },
            },
        },
    }
}

/// The values that a source expression gives.
pub fn source_values(source: &str, vars: &VariableSet) -> (r: Result<Vec<JsonValue>, DigError>)
    ensures
        match r {
            Ok(v) => fan_items(source@, vars@) == Ok::<Seq<Json>, Failure>(items_view(v@)),
            Err(e) => fan_items(source@, vars@) == Err::<Seq<Json>, Failure>(e@),
        },
{
    match evaluate_tokens(source, vars) {
        Err(e) => Err(e),
        Ok(JsonValue::Array(items)) => {
            proof {
                lemma_array_view(items);
            }
            Ok(items)
        },
        Ok(JsonValue::Object(_)) => Err(DigError::MapOverObject(source.to_owned())),
        Ok(other) => {
            let v = vec![other];
            assert(items_view(v@) =~= seq![other@]);
            Ok(v)
        },
    }
}

impl TaskStepConfig {
    /// The subtasks of the first `n` pairs of a fan-out under the given
    /// variables and context.
    pub fn _prepare_subtasks(
        &self,
        vars: &VariableSet,
        context: &RunContext,
        pairs: &Vec<(String, String)>,
        n: usize,
    ) -> (r: Result<Vec<PreparedTaskStep>, DigError>)
        requires
            n <= pairs.len(),
        ensures
            match r {
                Ok(v) => fanned(self.task@, pairs_view(pairs@), n as int, vars@, context@) == Ok::<
                    Seq<Prepared>,
                    Failure,
                >(prepared_view(v@)),
                Err(e) => fanned(self.task@, pairs_view(pairs@), n as int, vars@, context@)
                    == Err::<Seq<Prepared>, Failure>(e@),
            },
        decreases n,
    {
        if n == 0 {
            let v = vec![
                PreparedTaskStep {
                    task: self.task.clone(),
                    vars: vars.clone(),
                    context: context.clone(),
                },
            ];
            assert(prepared_view(v@) =~= seq![
                Prepared { task: self.task@, vars: vars@, context: context@ },
            ]);
            return Ok(v);
        }
        let ghost model = pairs_view(pairs@);
        let items = match source_values(pairs[n - 1].1.as_str(), vars) {
            Ok(v) => v,
            Err(e) => {
                return Err(e);
            },
        };
        let mut output: Vec<PreparedTaskStep> = Vec::new();
        let mut m: usize = 0;
        assert(prepared_view(output@) =~= Seq::<Prepared>::empty());
        while m < items.len()
            invariant
                0 < n <= pairs.len(),
                model == pairs_view(pairs@),
                m <= items.len(),
                fan_items(model[n - 1].1, vars@) == Ok::<Seq<Json>, Failure>(items_view(items@)),
                fanned_items(
                    self.task@,
                    model,
                    n as int,
                    vars@,
                    context@,
                    items_view(items@),
                    m as int,
                ) == Ok::<Seq<Prepared>, Failure>(prepared_view(output@)),
            decreases items.len() - m,
        {
            proof {
                if fanned_items(
                    self.task@,
                    model,
                    n as int,
                    vars@,
                    context@,
                    items_view(items@),
                    m + 1,
                ) is Err {
                    lemma_fanned_error(
                        self.task@,
                        model,
                        n as int,
                        vars@,
                        context@,
                        items_view(items@),
                        m + 1,
                        items@.len() as int,
                    );
                }
            }
            assert(model[n - 1] == (pairs[n - 1].0@, pairs[n - 1].1@));
            assert(items_view(items@)[m as int] == items[m as int]@);
            let mut bound = vars.clone();
            bound.insert(pairs[n - 1].0.clone(), items[m].clone());
            let mut more = match self._prepare_subtasks(&bound, context, pairs, n - 1) {
                Ok(v) => v,
                Err(e) => {
                    return Err(e);
                },
            };
            let ghost before = prepared_view(output@);
            let ghost added = prepared_view(more@);
            output.append(&mut more);
            assert(prepared_view(output@) =~= before + added);
            m += 1;
        }
        Ok(output)
    }

    /// The subtasks that the step asks for.
    pub fn prepare_subtasks(&self, vars: &VariableSet, context: &RunContext) -> (r: Result<
        StepEvaluationResult,
        DigError,
    >)
        ensures
            ({
                let model = fanned(
                    self.task@,
                    over_of(self.over),
                    over_of(self.over).len() as int,
                    vars@,
                    context@,
                );
                match r {
                    Ok(v) => model is Ok && v@ == Outcome::SubmitTasks(model->Ok_0),
                    Err(e) => model == Err::<Seq<Prepared>, Failure>(e@),
                }
            }),
    {
        let tasks = match &self.over {
            None => {
                let none: Vec<(String, String)> = Vec::new();
                assert(pairs_view(none@) =~= over_of(self.over));
                self._prepare_subtasks(vars, context, &none, 0)
            },
            Some(pairs) => self._prepare_subtasks(vars, context, pairs, pairs.len()),
        };
        match tasks {
            Ok(t) => Ok(StepEvaluationResult::SubmitTasks(t)),
            Err(e) => Err(e),
        }
    }

    /// A subtask step stores nothing.
    pub fn get_store(&self) -> (r: Option<&String>)
        ensures
            r is None,
    {
        None
    }

    /// Evaluates the step.
    pub fn evaluate(
        &self,
        vars: &VariableSet,
        context: &RunContext,
        answers: &Vec<Answer>,
        cursor: &mut usize,
    ) -> (r: Result<StepEvaluationResult, Pause>)
        ensures
            step_result(
                r,
                task_step_outcome(*self, vars@, context@, replies(answers@), *old(cursor) as int).0,
            ),
            r is Ok ==> *final(cursor) == task_step_outcome(
                *self,
                vars@,
                context@,
                replies(answers@),
                *old(cursor) as int,
            ).1,
    {
        let mut context = context.clone();
        let vars = match &self.vars {
            None => vars.stack(StackMode::CopyLocals),
            Some(raw_vars) => match vars.stack_raw_variables(
                raw_vars,
                StackMode::EmptyLocals,
                &context,
                answers,
                cursor,
            ) {
                Ok(v) => v,
                Err(p) => {
                    return Err(p);
                },
            },
        };
        match context.update(self.env.as_ref(), self.dir.as_ref(), self.silent, &vars, answers, cursor) {
            Ok(()) => {},
            Err(p) => {
                return Err(p);
            },
        }
        match test_run_gates(self.run_if.as_ref(), &vars, &context, answers, cursor) {
            Err(p) => Err(p),
            Ok(Some((i, exit))) => Ok(
                StepEvaluationResult::SkippedDueToIfStatement((i, exit.statement)),
            ),
            Ok(None) => match self.prepare_subtasks(&vars, &context) {
                Ok(o) => Ok(o),
                Err(e) => Err(Pause::Fail(e)),
            },
        }
    }
}

} // verus!
