//! The task engine's decisions: how a task is prepared, when it is
//! canceled or skipped, what its steps leave behind and what it returns.

use vstd::prelude::*;
use vstd::string::StringExecFns;
use crate::effect::next_answer;
use crate::effect::replies;
use crate::effect::reply_at;
use crate::effect::Answer;
use crate::effect::Halt;
use crate::effect::Pause;
use crate::effect::Query;
use crate::effect::Reply;
use crate::effect::Request;
use crate::error::DigError;
use crate::error::Failure;
use crate::gate::gates_from;
use crate::gate::gates_of;
use crate::gate::test_run_gates;
use crate::gate::RunGates;
use crate::raw::raw_entries;
use crate::raw::stacked_raw;
use crate::raw::RawVariableMap;
use crate::run_context::child_forcing;
use crate::run_context::forced;
use crate::run_context::updated;
use crate::run_context::Context;
use crate::run_context::DirConfig;
use crate::run_context::EnvConfig;
use crate::run_context::ForcingBehaviour;
use crate::run_context::RunContext;
use crate::step::basic_step::env_of;
use crate::step::basic_step::text_of;
use crate::step::common::StepConfig;
use crate::text::decimal;
use crate::text::decimal_text;
use crate::text::strings_view;
use crate::token::evaluate_tokens_to_string;
use crate::token::expand_to_string;
use crate::value::Json;
use crate::value::JsonValue;
use crate::vars::StackMode;
use crate::vars::VariableSet;
use crate::vars::Vars;

verus! {

/// What a task that says nothing makes of the forcing it inherits.
pub fn default_forcing() -> (r: ForcingBehaviour)
    ensures
        r is Inherit,
{
    ForcingBehaviour::Inherit
}

/// A task as the configuration writes it.
#[derive(Debug, PartialEq)]
pub struct TaskConfig {
    pub label: Option<String>,
    pub presteps: Option<Vec<StepConfig>>,
    pub steps: Vec<StepConfig>,
    pub poststeps: Option<Vec<StepConfig>>,
    pub inputs: Option<Vec<String>>,
    pub outputs: Option<Vec<String>>,
    /// The run-if gates: the task is skipped when one of them does not pass.
    pub run_if: Option<RunGates>,
    /// The cancel-if gates: the task is canceled when all of them pass.
    pub unless: Option<RunGates>,
    pub silent: bool,
    pub vars: Option<RawVariableMap>,
    pub forcing: ForcingBehaviour,
    pub env: EnvConfig,
    pub dir: DirConfig,
}

/// A task that is not run because a gate failed or its outputs are fresh.
#[derive(Debug, PartialEq)]
pub struct SkippedTask {
    pub label: String,
    pub reason: String,
}

/// A task that is not run because it was canceled.
#[derive(Debug, PartialEq)]
pub struct CanceledTask {
    pub label: String,
    pub reason: String,
}

/// What a task runs with: its label, its variables and its context.
#[derive(Debug, PartialEq)]
pub struct TaskEvaluationData {
    pub label: String,
    pub vars: VariableSet,
    pub context: RunContext,
}

/// What preparing a task came to.
#[derive(Debug, PartialEq)]
pub enum PreparedTask {
    Runnable(TaskEvaluationData),
    Skipped(SkippedTask),
    Canceled(CanceledTask),
}

/// Mathematical model of a [`PreparedTask`].
pub enum Readied {
    Runnable(Seq<char>, Vars, Context),
    Skipped(Seq<char>, Seq<char>),
    Canceled(Seq<char>, Seq<char>),
}

impl View for PreparedTask {
    type V = Readied;

    open spec fn view(&self) -> Readied {
        match self {
            PreparedTask::Runnable(d) => Readied::Runnable(d.label@, d.vars@, d.context@),
            PreparedTask::Skipped(s) => Readied::Skipped(s.label@, s.reason@),
            PreparedTask::Canceled(c) => Readied::Canceled(c.label@, c.reason@),
        }
    }
}

/// The texts of a list of paths; none is an empty list.
pub open spec fn paths_of(paths: Option<Vec<String>>) -> Seq<Seq<char>> {
    match paths {
        Some(p) => strings_view(p@),
        None => Seq::empty(),
    }
}

/// The later of two times.
pub open spec fn later(a: u64, b: u64) -> u64 {
    if a >= b {
        a
    } else {
        b
    }
}

/// The earlier of two times.
pub open spec fn earlier(a: u64, b: u64) -> u64 {
    if a <= b {
        a
    } else {
        b
    }
}

/// The latest modification among the first `n` inputs (0 without any),
/// with the index of the next answer. Each path is expanded and its time
/// asked for; an input that does not exist is an error.
pub open spec fn latest_input(
    inputs: Seq<Seq<char>>,
    n: int,
    vars: Vars,
    answers: Seq<Reply>,
    at: int,
) -> (Result<u64, Halt>, int)
    decreases n,
{
    if n <= 0 || n > inputs.len() {
        (Ok(0), at)
    } else {
        match latest_input(inputs, n - 1, vars, answers, at) {
            (Err(h), k) => (Err(h), k),
            (Ok(t), k) => match expand_to_string(inputs[n - 1], "input path"@, vars) {
                Err(e) => (Err(Halt::Fail(e)), k),
                Ok(path) => match reply_at(answers, k, Query::Modified(path)) {
                    Err(h) => (Err(h), k),
                    Ok(Reply::Time(Some(m))) => (Ok(later(t, m)), k + 1),
                    Ok(Reply::Time(None)) => (Err(Halt::Fail(Failure::MissingInput(path))), k + 1),
                    Ok(_) => (Err(Halt::Fail(Failure::UnexpectedAnswer)), k + 1),
                },
            },
        }
    }
}

/// The earliest modification among the first `n` outputs (none without
/// any), with the index of the next answer. Each path is expanded and its
/// time asked for; an output that does not exist counts as modified `now`.
pub open spec fn output_times(
    outputs: Seq<Seq<char>>,
    n: int,
    now: u64,
    vars: Vars,
    answers: Seq<Reply>,
    at: int,
) -> (Result<Option<u64>, Halt>, int)
    decreases n,
{
    if n <= 0 || n > outputs.len() {
        (Ok(None), at)
    } else {
        match output_times(outputs, n - 1, now, vars, answers, at) {
            (Err(h), k) => (Err(h), k),
            (Ok(acc), k) => match expand_to_string(outputs[n - 1], "output path"@, vars) {
                Err(e) => (Err(Halt::Fail(e)), k),
                Ok(path) => match reply_at(answers, k, Query::Modified(path)) {
                    Err(h) => (Err(h), k),
                    Ok(Reply::Time(t)) => {
                        let m = match t {
                            Some(x) => x,
                            None => now,
                        };
                        (
                            Ok(
                                Some(
                                    match acc {
                                        Some(a) => earlier(a, m),
                                        None => m,
                                    },
                                ),
                            ),
                            k + 1,
                        )
                    },
                    Ok(_) => (Err(Halt::Fail(Failure::UnexpectedAnswer)), k + 1),
                },
            },
        }
    }
}

/// The earliest modification among the outputs, with the index of the next
/// answer: the time is asked for first; without outputs it is that time.
pub open spec fn earliest_output(outputs: Seq<Seq<char>>, vars: Vars, answers: Seq<Reply>, at: int) -> (
    Result<u64, Halt>,
    int,
) {
    match reply_at(answers, at, Query::Now) {
        Err(h) => (Err(h), at),
        Ok(Reply::Time(Some(now))) => match output_times(
            outputs,
            outputs.len() as int,
            now,
            vars,
            answers,
            at + 1,
        ) {
            (Err(h), k) => (Err(h), k),
            (Ok(Some(t)), k) => (Ok(t), k),
            (Ok(None), k) => (Ok(now), k),
        },
        Ok(_) => (Err(Halt::Fail(Failure::UnexpectedAnswer)), at + 1),
    }
}

/// Why a task is skipped, if it is, given what its gates came to and,
/// where it has inputs, the latest input and the earliest output: the first
/// gate that did not pass, or outputs that are not older than the inputs.
pub open spec fn skip_verdict(
    gate: Option<(int, Seq<char>)>,
    times: Option<(u64, u64)>,
) -> Option<Seq<char>> {
    match gate {
        Some((i, statement)) => Some(
            "run-if gate "@ + decimal_text(i as nat) + ": "@ + statement,
        ),
        None => match times {
            Some((latest_in, earliest_out)) => if earliest_out >= latest_in {
                Some("outputs up to date"@)
            } else {
                None
            },
            None => None,
        },
    }
}

/// Why a task is skipped, if it is, with the index of the next answer.
pub open spec fn skip_reason(
    task: TaskConfig,
    vars: Vars,
    ctx: Context,
    answers: Seq<Reply>,
    at: int,
) -> (Result<Option<Seq<char>>, Halt>, int) {
    match gates_from(gates_of(task.run_if), 0, vars, ctx, answers, at) {
        (Err(h), n) => (Err(h), n),
        (Ok(Some((i, refusal))), n) => (Ok(skip_verdict(Some((i, refusal.statement)), None)), n),
        (Ok(None), n) => match task.inputs {
            None => (Ok(skip_verdict(None, None)), n),
            Some(inputs) => match latest_input(
                strings_view(inputs@),
                inputs@.len() as int,
                vars,
                answers,
                n,
            ) {
                (Err(h), n2) => (Err(h), n2),
                (Ok(latest), n2) => match earliest_output(paths_of(task.outputs), vars, answers, n2) {
                    (Err(h), n3) => (Err(h), n3),
                    (Ok(earliest), n3) => (Ok(skip_verdict(None, Some((latest, earliest)))), n3),
                },
            },
        },
    }
}

/// Why a task is canceled, if it is, with the index of the next answer: a
/// task with cancel-if gates is canceled when all of them pass.
pub open spec fn cancel_reason(
    task: TaskConfig,
    vars: Vars,
    ctx: Context,
    answers: Seq<Reply>,
    at: int,
) -> (Result<Option<Seq<char>>, Halt>, int) {
    match task.unless {
        None => (Ok(None), at),
        Some(_) => match gates_from(gates_of(task.unless), 0, vars, ctx, answers, at) {
            (Err(h), n) => (Err(h), n),
            (Ok(Some(_)), n) => (Ok(None), n),
            (Ok(None), n) => (Ok(Some("cancel-if all true"@)), n),
        },
    }
}

/// What a task with its environment comes to: canceled if its cancel-if
/// gates say so; else skipped if there is a reason and the context is not
/// forced; else runnable.
pub open spec fn settled(
    task: TaskConfig,
    label: Seq<char>,
    vars: Vars,
    ctx: Context,
    answers: Seq<Reply>,
    at: int,
) -> (Result<Readied, Halt>, int) {
    match cancel_reason(task, vars, ctx, answers, at) {
        (Err(h), n) => (Err(h), n),
        (Ok(Some(reason)), n) => (Ok(Readied::Canceled(label, reason)), n),
        (Ok(None), n) => match skip_reason(task, vars, ctx, answers, n) {
            (Err(h), n2) => (Err(h), n2),
            (Ok(Some(reason)), n2) => if forced(ctx.forcing) {
                (Ok(Readied::Runnable(label, vars, ctx)), n2)
            } else {
                (Ok(Readied::Skipped(label, reason)), n2)
            },
            (Ok(None), n2) => (Ok(Readied::Runnable(label, vars, ctx)), n2),
        },
    }
}

/// The label of a task: its own, expanded, or else the default.
pub open spec fn label_of(task: TaskConfig, default_label: Seq<char>, vars: Vars) -> Result<
    Seq<char>,
    Failure,
> {
    match task.label {
        Some(l) => expand_to_string(l@, "label"@, vars),
        None => Ok(default_label),
    }
}

/// What preparing a task comes to, with the index of the next answer: the
/// context is derived from the parent's by the task's forcing behaviour,
/// the variables are stacked, the overlays applied, the label resolved,
/// and the task settled.
pub open spec fn prepared(
    task: TaskConfig,
    default_label: Seq<char>,
    vars: Vars,
    copy_locals: bool,
    parent: Context,
    answers: Seq<Reply>,
    at: int,
) -> (Result<Readied, Halt>, int) {
    let ctx = Context { forcing: child_forcing(parent.forcing, task.forcing), ..parent };
    let stacked = match task.vars {
        None => (Ok::<Vars, Halt>(vars.stack(copy_locals)), at),
        Some(raw) => stacked_raw(
            raw_entries(raw),
            raw_entries(raw).len() as int,
            vars.stack(copy_locals),
            copy_locals,
            ctx,
            answers,
            at,
        ),
    };
    match stacked {
        (Err(h), n) => (Err(h), n),
        (Ok(v), n) => match updated(
            ctx,
            env_of(task.env),
            text_of(task.dir),
            task.silent,
            v,
            answers,
            n,
        ) {
            (Err(h), n2) => (Err(h), n2),
            (Ok(c), n2) => match label_of(task, default_label, v) {
                Err(e) => (Err(Halt::Fail(e)), n2),
                Ok(label) => settled(task, label, v, c, answers, n2),
            },
        },
    }
}

/// A task with inputs whose earliest output is later than its latest input
/// is skipped, unless it is canceled or its context is forced: its steps
/// are not run.
pub proof fn lemma_fresh_task_is_skipped(
    task: TaskConfig,
    label: Seq<char>,
    vars: Vars,
    ctx: Context,
    answers: Seq<Reply>,
    at: int,
    latest: u64,
    earliest: u64,
)
    requires
        !forced(ctx.forcing),
        cancel_reason(task, vars, ctx, answers, at).0 == Ok::<Option<Seq<char>>, Halt>(None),
        gates_from(
            gates_of(task.run_if),
            0,
            vars,
            ctx,
            answers,
            cancel_reason(task, vars, ctx, answers, at).1,
        ).0 is Ok,
        task.inputs is Some,
        ({
            let n = gates_from(
                gates_of(task.run_if),
                0,
                vars,
                ctx,
                answers,
                cancel_reason(task, vars, ctx, answers, at).1,
            ).1;
            let ins = latest_input(
                strings_view(task.inputs->0@),
                task.inputs->0@.len() as int,
                vars,
                answers,
                n,
            );
            ins.0 == Ok::<u64, Halt>(latest) && earliest_output(
                paths_of(task.outputs),
                vars,
                answers,
                ins.1,
            ).0 == Ok::<u64, Halt>(earliest)
        }),
        earliest > latest,
    ensures
        settled(task, label, vars, ctx, answers, at).0 is Ok,
        settled(task, label, vars, ctx, answers, at).0->Ok_0 is Skipped,
{
}

/// Forcing suppresses skipping: in a forced context a task is never skipped.
pub proof fn lemma_forced_task_is_not_skipped(
    task: TaskConfig,
    label: Seq<char>,
    vars: Vars,
    ctx: Context,
    answers: Seq<Reply>,
    at: int,
)
    requires
        forced(ctx.forcing),
    ensures
        settled(task, label, vars, ctx, answers, at).0 is Ok ==> !(settled(
            task,
            label,
            vars,
            ctx,
            answers,
            at,
        ).0->Ok_0 is Skipped),
{
}

/// An error among the first `k` inputs is the error of all of them.
pub proof fn lemma_inputs_error(
    inputs: Seq<Seq<char>>,
    k: int,
    n: int,
    vars: Vars,
    answers: Seq<Reply>,
    at: int,
)
    requires
        0 <= k <= n <= inputs.len(),
        latest_input(inputs, k, vars, answers, at).0 is Err,
    ensures
        latest_input(inputs, n, vars, answers, at).0 == latest_input(inputs, k, vars, answers, at).0,
    decreases n - k,
{
    if k < n {
        lemma_inputs_error(inputs, k, n - 1, vars, answers, at);
    }
}

/// An error among the first `k` outputs is the error of all of them.
pub proof fn lemma_outputs_error(
    outputs: Seq<Seq<char>>,
    k: int,
    n: int,
    now: u64,
    vars: Vars,
    answers: Seq<Reply>,
    at: int,
)
    requires
        0 <= k <= n <= outputs.len(),
        output_times(outputs, k, now, vars, answers, at).0 is Err,
    ensures
        output_times(outputs, n, now, vars, answers, at).0 == output_times(
            outputs,
            k,
            now,
            vars,
            answers,
            at,
        ).0,
    decreases n - k,
{
    if k < n {
        lemma_outputs_error(outputs, k, n - 1, now, vars, answers, at);
    }
}

/// The outputs of the first `n` subtasks, in order; the error of the first
/// that failed. A subtask that returns nothing adds nothing.
pub open spec fn joined(results: Seq<Result<Option<Vec<String>>, DigError>>, n: int) -> Result<
    Seq<Seq<char>>,
    Failure,
>
    decreases n,
{
    if n <= 0 || n > results.len() {
        Ok(Seq::empty())
    } else {
        match joined(results, n - 1) {
            Err(e) => Err(e),
            Ok(done) => match results[n - 1] {
                Err(e) => Err(e@),
                Ok(Some(out)) => Ok(done + strings_view(out@)),
                Ok(None) => Ok(done),
            },
        }
    }
}

/// An error among the first `k` subtasks is the error of all of them.
pub proof fn lemma_joined_error(results: Seq<Result<Option<Vec<String>>, DigError>>, k: int, n: int)
    requires
        0 <= k <= n <= results.len(),
        joined(results, k) is Err,
    ensures
        joined(results, n) == joined(results, k),
    decreases n - k,
{
    if k < n {
        lemma_joined_error(results, k, n - 1);
    }
}

/// Appends copies of `more` to `out`.
pub(crate) fn extend_texts(out: &mut Vec<String>, more: &Vec<String>)
    ensures
        strings_view(final(out)@) == strings_view(old(out)@) + strings_view(more@),
{
    let ghost start = strings_view(out@);
    let mut i: usize = 0;
    assert(strings_view(more@).subrange(0, 0) =~= Seq::<Seq<char>>::empty());
    assert(start + Seq::<Seq<char>>::empty() =~= start);
    while i < more.len()
        invariant
            i <= more.len(),
            strings_view(out@) == start + strings_view(more@).subrange(0, i as int),
        decreases more.len() - i,
    {
        let ghost before = strings_view(out@);
        out.push(more[i].clone());
        assert(strings_view(out@) =~= before.push(more[i as int]@));
        assert(strings_view(out@) =~= start + strings_view(more@).subrange(0, i + 1));
        i += 1;
    }
    assert(strings_view(more@).subrange(0, i as int) =~= strings_view(more@));
}

impl TaskConfig {
    /// The latest modification among the inputs.
    pub fn get_latest_input(&self, vars: &VariableSet, answers: &Vec<Answer>, cursor: &mut usize) -> (r:
        Result<u64, Pause>)
        ensures
            ({
                let model = latest_input(
                    paths_of(self.inputs),
                    paths_of(self.inputs).len() as int,
                    vars@,
                    replies(answers@),
                    *old(cursor) as int,
                );
                match r {
                    Ok(t) => model == (Ok::<u64, Halt>(t), *final(cursor) as int),
                    Err(p) => model.0 == Err::<u64, Halt>(p@),
                }
            }),
    {
        let mut last: u64 = 0;
        match &self.inputs {
            None => {},
            Some(inputs) => {
                let ghost texts = strings_view(inputs@);
                let ghost start = *cursor as int;
                let mut i: usize = 0;
                while i < inputs.len()
                    invariant
                        i <= inputs.len(),
                        texts == strings_view(inputs@),
                        texts == paths_of(self.inputs),
                        start == *old(cursor),
                        latest_input(texts, i as int, vars@, replies(answers@), start) == (
                            Ok::<u64, Halt>(last),
                            *cursor as int,
                        ),
                    decreases inputs.len() - i,
                {
                    proof {
                        if latest_input(texts, i + 1, vars@, replies(answers@), start).0 is Err {
                            lemma_inputs_error(
                                texts,
                                i + 1,
                                texts.len() as int,
                                vars@,
                                replies(answers@),
                                start,
                            );
                        }
                    }
                    let path = match evaluate_tokens_to_string(
                        inputs[i].as_str(),
                        "input path",
                        vars,
                    ) {
                        Ok(p) => p,
                        Err(e) => {
                            return Err(Pause::Fail(e));
                        },
                    };
                    match next_answer(answers, cursor, Request::Modified(path.clone())) {
                        Err(p) => {
                            return Err(p);
                        },
                        Ok(Answer::Time(Some(m))) => {
                            if *m > last {
                                last = *m;
                            }
                        },
                        Ok(Answer::Time(None)) => {
                            return Err(Pause::Fail(DigError::MissingInput(path)));
                        },
                        Ok(_) => {
                            return Err(Pause::Fail(DigError::UnexpectedAnswer));
                        },
                    }
                    i += 1;
                }
            },
        }
        Ok(last)
    }

    /// The earliest modification among the outputs.
    pub fn get_earliest_output(
        &self,
        vars: &VariableSet,
        answers: &Vec<Answer>,
        cursor: &mut usize,
    ) -> (r: Result<u64, Pause>)
        ensures
            ({
                let model = earliest_output(
                    paths_of(self.outputs),
                    vars@,
                    replies(answers@),
                    *old(cursor) as int,
                );
                match r {
                    Ok(t) => model == (Ok::<u64, Halt>(t), *final(cursor) as int),
                    Err(p) => model.0 == Err::<u64, Halt>(p@),
                }
            }),
    {
        let now = match next_answer(answers, cursor, Request::Now) {
            Err(p) => {
                return Err(p);
            },
            Ok(Answer::Time(Some(t))) => *t,
            Ok(_) => {
                return Err(Pause::Fail(DigError::UnexpectedAnswer));
            },
        };
        let mut first: Option<u64> = None;
        match &self.outputs {
            None => {},
            Some(outputs) => {
                let ghost texts = strings_view(outputs@);
                let ghost start = *cursor as int;
                let mut i: usize = 0;
                while i < outputs.len()
                    invariant
                        i <= outputs.len(),
                        texts == strings_view(outputs@),
                        texts == paths_of(self.outputs),
                        start == *old(cursor) + 1,
                        reply_at(replies(answers@), *old(cursor) as int, Query::Now) == Ok::<
                            Reply,
                            Halt,
                        >(Reply::Time(Some(now))),
                        output_times(texts, i as int, now, vars@, replies(answers@), start) == (
                            Ok::<Option<u64>, Halt>(first),
                            *cursor as int,
                        ),
                    decreases outputs.len() - i,
                {
                    proof {
                        if output_times(
                            texts,
                            i + 1,
                            now,
                            vars@,
                            replies(answers@),
                            start,
                        ).0 is Err {
                            lemma_outputs_error(
                                texts,
                                i + 1,
                                texts.len() as int,
                                now,
                                vars@,
                                replies(answers@),
                                start,
                            );
                        }
                    }
                    let path = match evaluate_tokens_to_string(
                        outputs[i].as_str(),
                        "output path",
                        vars,
                    ) {
                        Ok(p) => p,
                        Err(e) => {
                            return Err(Pause::Fail(e));
                        },
                    };
                    match next_answer(answers, cursor, Request::Modified(path)) {
                        Err(p) => {
                            return Err(p);
                        },
                        Ok(Answer::Time(t)) => {
                            let m = match t {
                                Some(x) => *x,
                                None => now,
                            };
                            first = match first {
                                Some(a) => Some(
                                    if a <= m {
                                        a
                                    } else {
                                        m
                                    },
                                ),
                                None => Some(m),
                            };
                        },
                        Ok(_) => {
                            return Err(Pause::Fail(DigError::UnexpectedAnswer));
                        },
                    }
                    i += 1;
                }
            },
        }
        match first {
            Some(t) => Ok(t),
            None => Ok(now),
        }
    }

    /// Why the task is skipped, if it is.
    pub fn check_skip_state(
        &self,
        vars: &VariableSet,
        context: &RunContext,
        answers: &Vec<Answer>,
        cursor: &mut usize,
    ) -> (r: Result<Option<String>, Pause>)
        ensures
            ({
                let model = skip_reason(
                    *self,
                    vars@,
                    context@,
                    replies(answers@),
                    *old(cursor) as int,
                );
                match r {
                    Ok(reason) => model == (
                        Ok::<Option<Seq<char>>, Halt>(text_of(reason)),
                        *final(cursor) as int,
                    ),
                    Err(p) => model.0 == Err::<Option<Seq<char>>, Halt>(p@),
                }
            }),
    {
        match test_run_gates(self.run_if.as_ref(), vars, context, answers, cursor) {
            Err(p) => {
                return Err(p);
            },
            Ok(Some((i, exit))) => {
                let mut reason = "run-if gate ".to_owned();
                reason.append(decimal(i).as_str());
                reason.append(": ");
                reason.append(exit.statement.as_str());
                return Ok(Some(reason));
            },
            Ok(None) => {},
        }
        if self.inputs.is_some() {
            let latest = match self.get_latest_input(vars, answers, cursor) {
                Ok(t) => t,
                Err(p) => {
                    return Err(p);
                },
            };
            let earliest = match self.get_earliest_output(vars, answers, cursor) {
                Ok(t) => t,
                Err(p) => {
                    return Err(p);
                },
            };
            if earliest >= latest {
                return Ok(Some("outputs up to date".to_owned()));
            }
        }
        Ok(None)
    }

    /// Why the task is canceled, if it is.
    pub fn test_cancel(
        &self,
        vars: &VariableSet,
        context: &RunContext,
        answers: &Vec<Answer>,
        cursor: &mut usize,
    ) -> (r: Result<Option<String>, Pause>)
        ensures
            ({
                let model = cancel_reason(
                    *self,
                    vars@,
                    context@,
                    replies(answers@),
                    *old(cursor) as int,
                );
                match r {
                    Ok(reason) => model == (
                        Ok::<Option<Seq<char>>, Halt>(text_of(reason)),
                        *final(cursor) as int,
                    ),
                    Err(p) => model.0 == Err::<Option<Seq<char>>, Halt>(p@),
                }
            }),
    {
        if self.unless.is_none() {
            return Ok(None);
        }
        match test_run_gates(self.unless.as_ref(), vars, context, answers, cursor) {
            Err(p) => Err(p),
            Ok(Some(_)) => Ok(None),
            Ok(None) => Ok(Some("cancel-if all true".to_owned())),
        }
    }

    /// Prepares the task under a parent's variables and context: it comes
    /// back runnable, skipped or canceled.
    pub fn prepare(
        &self,
        default_label: &str,
        vars: &VariableSet,
        stack_mode: StackMode,
        parent_context: &RunContext,
        answers: &Vec<Answer>,
        cursor: &mut usize,
    ) -> (r: Result<PreparedTask, Pause>)
        ensures
            ({
                let model = prepared(
                    *self,
                    default_label@,
                    vars@,
                    stack_mode == StackMode::CopyLocals,
                    parent_context@,
                    replies(answers@),
                    *old(cursor) as int,
                );
                match r {
                    Ok(t) => model == (Ok::<Readied, Halt>(t@), *final(cursor) as int),
                    Err(p) => model.0 == Err::<Readied, Halt>(p@),
                }
            }),
    {
        let mut context = parent_context.child_context(self.forcing);
        let vars = match &self.vars {
            None => vars.stack(stack_mode),
            Some(raw_vars) => match vars.stack_raw_variables(
                raw_vars,
                stack_mode,
                &context,
                answers,
                cursor,
            ) {
                Ok(v) => v,
                Err(p) => {
                    return Err(p);
                },
            },
        };
        match context.update(self.env.as_ref(), self.dir.as_ref(), self.silent, &vars, answers, cursor) {
            Ok(()) => {},
            Err(p) => {
                return Err(p);
            },
        }
        let label = match &self.label {
            Some(val) => match evaluate_tokens_to_string(val.as_str(), "label", &vars) {
                Ok(l) => l,
                Err(e) => {
                    return Err(Pause::Fail(e));
                },
            },
            None => default_label.to_owned(),
        };
        self.settle(label, vars, context, answers, cursor)
    }

    /// Settles a task that has its label, variables and context: canceled,
    /// skipped or runnable.
    pub fn settle(
        &self,
        label: String,
        vars: VariableSet,
        context: RunContext,
        answers: &Vec<Answer>,
        cursor: &mut usize,
    ) -> (r: Result<PreparedTask, Pause>)
        ensures
            ({
                let model = settled(
                    *self,
                    label@,
                    vars@,
                    context@,
                    replies(answers@),
                    *old(cursor) as int,
                );
                match r {
                    Ok(t) => model == (Ok::<Readied, Halt>(t@), *final(cursor) as int),
                    Err(p) => model.0 == Err::<Readied, Halt>(p@),
                }
            }),
    {
        match self.test_cancel(&vars, &context, answers, cursor) {
            Err(p) => {
                return Err(p);
            },
            Ok(Some(reason)) => {
                return Ok(PreparedTask::Canceled(CanceledTask { label, reason }));
            },
            Ok(None) => {},
        }
        match self.check_skip_state(&vars, &context, answers, cursor) {
            Err(p) => Err(p),
            Ok(Some(reason)) => {
                if context.is_forced() {
                    Ok(PreparedTask::Runnable(TaskEvaluationData { label, vars, context }))
                } else {
                    Ok(PreparedTask::Skipped(SkippedTask { label, reason }))
                }
            },
            Ok(None) => Ok(PreparedTask::Runnable(TaskEvaluationData { label, vars, context })),
        }
    }

    /// What a prepared subtask means to the task that spawned it: a
    /// runnable one is run, a skipped one is passed over, a canceled one is
    /// an error.
    pub fn to_run(prepared: PreparedTask) -> (r: Result<Option<TaskEvaluationData>, DigError>)
        ensures
            match prepared {
                PreparedTask::Runnable(d) => r == Ok::<Option<TaskEvaluationData>, DigError>(
                    Some(d),
                ),
                PreparedTask::Skipped(_) => r == Ok::<Option<TaskEvaluationData>, DigError>(None),
                PreparedTask::Canceled(c) => r is Err && r->Err_0@ == Failure::Canceled(c.label@),
            },
    {
        match prepared {
            PreparedTask::Runnable(d) => Ok(Some(d)),
            PreparedTask::Skipped(_) => Ok(None),
            PreparedTask::Canceled(c) => Err(DigError::Canceled(c.label)),
        }
    }

    /// The outputs of the subtasks of one step, in the order in which they
    /// were submitted; the error of the first that failed.
    pub fn gather_subtasks(results: &Vec<Result<Option<Vec<String>>, DigError>>) -> (r: Result<
        Vec<String>,
        DigError,
    >)
        ensures
            match r {
                Ok(v) => joined(results@, results@.len() as int) == Ok::<Seq<Seq<char>>, Failure>(
                    strings_view(v@),
                ),
                Err(e) => joined(results@, results@.len() as int) == Err::<Seq<Seq<char>>, Failure>(
                    e@,
                ),
            },
    {
        let mut out: Vec<String> = Vec::new();
        let mut i: usize = 0;
        assert(strings_view(out@) =~= Seq::<Seq<char>>::empty());
        while i < results.len()
            invariant
                i <= results.len(),
                joined(results@, i as int) == Ok::<Seq<Seq<char>>, Failure>(strings_view(out@)),
            decreases results.len() - i,
        {
            proof {
                if joined(results@, i + 1) is Err {
                    lemma_joined_error(results@, i + 1, results@.len() as int);
                }
            }
            match &results[i] {
                Err(e) => {
                    return Err(e.clone());
                },
                Ok(Some(more)) => {
                    extend_texts(&mut out, more);
                },
                Ok(None) => {},
            }
            i += 1;
        }
        Ok(out)
    }

    /// Records in the local frame whether the steps succeeded, under `SUCCESS`.
    pub fn mark_success(data: &mut TaskEvaluationData, succeeded: bool)
        ensures
            final(data).label == old(data).label,
            final(data).context == old(data).context,
            final(data).vars@ == old(data).vars@.insert("SUCCESS"@, Json::Bool(succeeded)),
    {
        data.vars.insert("SUCCESS".to_owned(), JsonValue::Bool(succeeded));
    }
}

} // verus!
