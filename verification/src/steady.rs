//! Decisions are steady: once a function has run to its end on the answers
//! it was given, further answers do not change what it came to. So a caller
//! may hand in the answers one by one, as they arrive.

use vstd::prelude::*;
use crate::effect::reply_at;
use crate::effect::Halt;
use crate::effect::Query;
use crate::effect::Reply;
use crate::gate::gate_outcome;
use crate::gate::gates_from;
use crate::gate::test_gate;
use crate::gate::Gate;
use crate::raw::entry_stacked;
use crate::raw::raw_value;
use crate::raw::stacked_raw;
use crate::raw::RawVariable;
use crate::run_context::resolved_dir;
use crate::run_context::updated;
use crate::run_context::Context;
use crate::run_context::Pairs;
use crate::step::basic_step::basic_outcome;
use crate::step::basic_step::Process;
use crate::step::common::singular_outcome;
use crate::step::common::SingularStepConfig;
use crate::step::task_step::task_step_outcome;
use crate::step::task_step::TaskStepConfig;
use crate::task::cancel_reason;
use crate::task::earliest_output;
use crate::task::latest_input;
use crate::task::output_times;
use crate::task::prepared;
use crate::task::settled;
use crate::task::skip_reason;
use crate::task::TaskConfig;
use crate::vars::Vars;

verus! {

/// Whether `more` begins with the answers of `fewer`.
pub open spec fn extends(more: Seq<Reply>, fewer: Seq<Reply>) -> bool {
    fewer.len() <= more.len() && forall|i: int| 0 <= i < fewer.len() ==> more[i] == fewer[i]
}

/// Whether a function ran to its end: it did not pause for an answer.
pub open spec fn at_end<T>(r: Result<T, Halt>) -> bool {
    match r {
        Err(Halt::Ask(_)) => false,
        _ => true,
    }
}

/// An answer that was there stays the same with more answers.
pub proof fn lemma_steady_reply(a: Seq<Reply>, b: Seq<Reply>, at: int, query: Query)
    requires
        extends(b, a),
        at_end(reply_at(a, at, query)),
    ensures
        reply_at(b, at, query) == reply_at(a, at, query),
{
}

/// A directory that was resolved to the end comes to the same with more answers.
pub proof fn lemma_steady_dir(
    a: Seq<Reply>,
    b: Seq<Reply>,
    old_dir: Option<Seq<char>>,
    dir: Option<Seq<char>>,
    vars: Vars,
    at: int,
)
    requires
        extends(b, a),
        at_end(resolved_dir(old_dir, dir, vars, a, at).0),
    ensures
        resolved_dir(old_dir, dir, vars, b, at) == resolved_dir(old_dir, dir, vars, a, at),
{
}

/// A context that was updated to the end comes to the same with more answers.
pub proof fn lemma_steady_update(
    a: Seq<Reply>,
    b: Seq<Reply>,
    ctx: Context,
    env: Option<Pairs>,
    dir: Option<Seq<char>>,
    silent: bool,
    vars: Vars,
    at: int,
)
    requires
        extends(b, a),
        at_end(updated(ctx, env, dir, silent, vars, a, at).0),
    ensures
        updated(ctx, env, dir, silent, vars, b, at) == updated(ctx, env, dir, silent, vars, a, at),
{
    if at_end(resolved_dir(ctx.dir, dir, vars, a, at).0) {
        lemma_steady_dir(a, b, ctx.dir, dir, vars, at);
    }
}

/// A gate that was evaluated to the end comes to the same with more answers.
pub proof fn lemma_steady_gate(a: Seq<Reply>, b: Seq<Reply>, gate: Gate, env: Vars, ctx: Context, at: int)
    requires
        extends(b, a),
        at_end(gate_outcome(gate, env, ctx, a, at).0),
    ensures
        gate_outcome(gate, env, ctx, b, at) == gate_outcome(gate, env, ctx, a, at),
{
}

/// Gates that were walked to the end come to the same with more answers.
pub proof fn lemma_steady_gates(
    a: Seq<Reply>,
    b: Seq<Reply>,
    gates: Seq<Gate>,
    i: int,
    env: Vars,
    ctx: Context,
    at: int,
)
    requires
        extends(b, a),
        at_end(gates_from(gates, i, env, ctx, a, at).0),
    ensures
        gates_from(gates, i, env, ctx, b, at) == gates_from(gates, i, env, ctx, a, at),
    decreases gates.len() - i,
{
    if 0 <= i < gates.len() {
        lemma_steady_gate(a, b, gates[i], env, ctx, at);
        match gate_outcome(gates[i], env, ctx, a, at) {
            (Ok(None), next) => {
                lemma_steady_gates(a, b, gates, i + 1, env, ctx, next);
            },
            _ => {},
        }
    }
}

/// A process step that ran to its end comes to the same with more answers.
pub proof fn lemma_steady_process(
    a: Seq<Reply>,
    b: Seq<Reply>,
    step: Process,
    vars: Vars,
    ctx: Context,
    at: int,
)
    requires
        extends(b, a),
        at_end(basic_outcome(step, vars, ctx, a, at).0),
    ensures
        basic_outcome(step, vars, ctx, b, at) == basic_outcome(step, vars, ctx, a, at),
{
    lemma_steady_update(a, b, ctx, step.env, step.dir, step.silent, vars, at);
    match updated(ctx, step.env, step.dir, step.silent, vars, a, at) {
        (Ok(c), n) => {
            lemma_steady_gates(a, b, step.gates, 0, vars, c, n);
        },
        _ => {},
    }
}

/// A raw variable that was evaluated to the end has the same value with more answers.
pub proof fn lemma_steady_raw_value(
    a: Seq<Reply>,
    b: Seq<Reply>,
    raw: RawVariable,
    vars: Vars,
    ctx: Context,
    at: int,
)
    requires
        extends(b, a),
        at_end(raw_value(raw, vars, ctx, a, at).0),
    ensures
        raw_value(raw, vars, ctx, b, at) == raw_value(raw, vars, ctx, a, at),
{
    match raw {
        RawVariable::Executable(c) => {
            lemma_steady_process(a, b, crate::step::common::process_of(c), vars, ctx, at);
        },
        _ => {},
    }
}

/// A raw entry that was evaluated to the end leaves the same environment with more answers.
pub proof fn lemma_steady_entry(
    a: Seq<Reply>,
    b: Seq<Reply>,
    cur: Vars,
    key: Seq<char>,
    raw: RawVariable,
    copy_locals: bool,
    ctx: Context,
    at: int,
)
    requires
        extends(b, a),
        at_end(entry_stacked(cur, key, raw, copy_locals, ctx, a, at).0),
    ensures
        entry_stacked(cur, key, raw, copy_locals, ctx, b, at) == entry_stacked(
            cur,
            key,
            raw,
            copy_locals,
            ctx,
            a,
            at,
        ),
{
    if at_end(raw_value(raw, cur, ctx, a, at).0) {
        lemma_steady_raw_value(a, b, raw, cur, ctx, at);
    }
}

/// Raw variables that were all evaluated come to the same with more answers.
pub proof fn lemma_steady_stack(
    a: Seq<Reply>,
    b: Seq<Reply>,
    entries: Seq<(String, RawVariable)>,
    n: int,
    base: Vars,
    copy_locals: bool,
    ctx: Context,
    at: int,
)
    requires
        extends(b, a),
        at_end(stacked_raw(entries, n, base, copy_locals, ctx, a, at).0),
    ensures
        stacked_raw(entries, n, base, copy_locals, ctx, b, at) == stacked_raw(
            entries,
            n,
            base,
            copy_locals,
            ctx,
            a,
            at,
        ),
    decreases n,
{
    if 0 < n <= entries.len() {
        lemma_steady_stack(a, b, entries, n - 1, base, copy_locals, ctx, at);
        match stacked_raw(entries, n - 1, base, copy_locals, ctx, a, at) {
            (Ok(cur), k) => {
                lemma_steady_entry(
                    a,
                    b,
                    cur,
                    entries[n - 1].0@,
                    entries[n - 1].1,
                    copy_locals,
                    ctx,
                    k,
                );
            },
            _ => {},
        }
    }
}

/// A subtask step that ran to its end comes to the same with more answers.
pub proof fn lemma_steady_task_step(
    a: Seq<Reply>,
    b: Seq<Reply>,
    step: TaskStepConfig,
    vars: Vars,
    ctx: Context,
    at: int,
)
    requires
        extends(b, a),
        at_end(task_step_outcome(step, vars, ctx, a, at).0),
    ensures
        task_step_outcome(step, vars, ctx, b, at) == task_step_outcome(step, vars, ctx, a, at),
{
    let stacked = match step.vars {
        None => (Ok::<Vars, Halt>(vars.stack(true)), at),
        Some(raw) => {
            let entries = crate::raw::raw_entries(raw);
            lemma_steady_stack(a, b, entries, entries.len() as int, vars.stack(false), false, ctx, at);
            stacked_raw(entries, entries.len() as int, vars.stack(false), false, ctx, a, at)
        },
    };
    match stacked {
        (Ok(v), n) => {
            let env = crate::step::basic_step::env_of(step.env);
            let dir = crate::step::basic_step::text_of(step.dir);
            lemma_steady_update(a, b, ctx, env, dir, step.silent, v, n);
            match updated(ctx, env, dir, step.silent, v, a, n) {
                (Ok(c), n2) => {
                    lemma_steady_gates(a, b, crate::gate::gates_of(step.run_if), 0, v, c, n2);
                },
                _ => {},
            }
        },
        _ => {},
    }
}

/// A step that ran to its end comes to the same with more answers.
pub proof fn lemma_steady_step(
    a: Seq<Reply>,
    b: Seq<Reply>,
    step: SingularStepConfig,
    vars: Vars,
    ctx: Context,
    at: int,
)
    requires
        extends(b, a),
        at_end(singular_outcome(step, vars, ctx, a, at).0),
    ensures
        singular_outcome(step, vars, ctx, b, at) == singular_outcome(step, vars, ctx, a, at),
{
    match step {
        SingularStepConfig::Simple(x) => {
            lemma_steady_process(a, b, crate::step::common::simple_process(x@), vars, ctx, at);
        },
        SingularStepConfig::Config(x) => {
            lemma_steady_process(a, b, crate::step::common::process_of(x), vars, ctx, at);
        },
        SingularStepConfig::Task(x) => {
            lemma_steady_task_step(a, b, x, vars, ctx, at);
        },
    }
}

/// Inputs whose times were all found have the same latest time with more answers.
pub proof fn lemma_steady_inputs(
    a: Seq<Reply>,
    b: Seq<Reply>,
    inputs: Seq<Seq<char>>,
    n: int,
    vars: Vars,
    at: int,
)
    requires
        extends(b, a),
        at_end(latest_input(inputs, n, vars, a, at).0),
    ensures
        latest_input(inputs, n, vars, b, at) == latest_input(inputs, n, vars, a, at),
    decreases n,
{
    if 0 < n <= inputs.len() {
        lemma_steady_inputs(a, b, inputs, n - 1, vars, at);
    }
}

/// Outputs whose times were all found have the same earliest time with more answers.
pub proof fn lemma_steady_outputs(
    a: Seq<Reply>,
    b: Seq<Reply>,
    outputs: Seq<Seq<char>>,
    n: int,
    now: u64,
    vars: Vars,
    at: int,
)
    requires
        extends(b, a),
        at_end(output_times(outputs, n, now, vars, a, at).0),
    ensures
        output_times(outputs, n, now, vars, b, at) == output_times(outputs, n, now, vars, a, at),
    decreases n,
{
    if 0 < n <= outputs.len() {
        lemma_steady_outputs(a, b, outputs, n - 1, now, vars, at);
    }
}

/// The earliest output, once found, is the same with more answers.
pub proof fn lemma_steady_earliest(
    a: Seq<Reply>,
    b: Seq<Reply>,
    outputs: Seq<Seq<char>>,
    vars: Vars,
    at: int,
)
    requires
        extends(b, a),
        at_end(earliest_output(outputs, vars, a, at).0),
    ensures
        earliest_output(outputs, vars, b, at) == earliest_output(outputs, vars, a, at),
{
    match reply_at(a, at, Query::Now) {
        Ok(Reply::Time(Some(now))) => {
            lemma_steady_outputs(a, b, outputs, outputs.len() as int, now, vars, at + 1);
        },
        _ => {},
    }
}

/// Whether and why a task is skipped, once decided, is the same with more answers.
pub proof fn lemma_steady_skip(
    a: Seq<Reply>,
    b: Seq<Reply>,
    task: TaskConfig,
    vars: Vars,
    ctx: Context,
    at: int,
)
    requires
        extends(b, a),
        at_end(skip_reason(task, vars, ctx, a, at).0),
    ensures
        skip_reason(task, vars, ctx, b, at) == skip_reason(task, vars, ctx, a, at),
{
    lemma_steady_gates(a, b, crate::gate::gates_of(task.run_if), 0, vars, ctx, at);
    match gates_from(crate::gate::gates_of(task.run_if), 0, vars, ctx, a, at) {
        (Ok(None), n) => match task.inputs {
            Some(inputs) => {
                let texts = crate::text::strings_view(inputs@);
                lemma_steady_inputs(a, b, texts, texts.len() as int, vars, n);
                match latest_input(texts, texts.len() as int, vars, a, n) {
                    (Ok(_), n2) => {
                        lemma_steady_earliest(a, b, crate::task::paths_of(task.outputs), vars, n2);
                    },
                    _ => {},
                }
            },
            None => {},
        },
        _ => {},
    }
}

/// Whether a task is canceled, once decided, is the same with more answers.
pub proof fn lemma_steady_cancel(
    a: Seq<Reply>,
    b: Seq<Reply>,
    task: TaskConfig,
    vars: Vars,
    ctx: Context,
    at: int,
)
    requires
        extends(b, a),
        at_end(cancel_reason(task, vars, ctx, a, at).0),
    ensures
        cancel_reason(task, vars, ctx, b, at) == cancel_reason(task, vars, ctx, a, at),
{
    lemma_steady_gates(a, b, crate::gate::gates_of(task.unless), 0, vars, ctx, at);
}

/// A task that was settled comes to the same with more answers.
pub proof fn lemma_steady_settled(
    a: Seq<Reply>,
    b: Seq<Reply>,
    task: TaskConfig,
    label: Seq<char>,
    vars: Vars,
    ctx: Context,
    at: int,
)
    requires
        extends(b, a),
        at_end(settled(task, label, vars, ctx, a, at).0),
    ensures
        settled(task, label, vars, ctx, b, at) == settled(task, label, vars, ctx, a, at),
{
    lemma_steady_cancel(a, b, task, vars, ctx, at);
    match cancel_reason(task, vars, ctx, a, at) {
        (Ok(None), n) => {
            lemma_steady_skip(a, b, task, vars, ctx, n);
        },
        _ => {},
    }
}

/// A task that was prepared to the end comes to the same with more answers.
pub proof fn lemma_steady_prepared(
    a: Seq<Reply>,
    b: Seq<Reply>,
    task: TaskConfig,
    default_label: Seq<char>,
    vars: Vars,
    copy_locals: bool,
    parent: Context,
    at: int,
)
    requires
        extends(b, a),
        at_end(prepared(task, default_label, vars, copy_locals, parent, a, at).0),
    ensures
        prepared(task, default_label, vars, copy_locals, parent, b, at) == prepared(
            task,
            default_label,
            vars,
            copy_locals,
            parent,
            a,
            at,
        ),
{
    let ctx = Context {
        forcing: crate::run_context::child_forcing(parent.forcing, task.forcing),
        ..parent
    };
    let stacked = match task.vars {
        None => (Ok::<Vars, Halt>(vars.stack(copy_locals)), at),
        Some(raw) => {
            let entries = crate::raw::raw_entries(raw);
            lemma_steady_stack(
                a,
                b,
                entries,
                entries.len() as int,
                vars.stack(copy_locals),
                copy_locals,
                ctx,
                at,
            );
            stacked_raw(entries, entries.len() as int, vars.stack(copy_locals), copy_locals, ctx, a, at)
        },
    };
    match stacked {
        (Ok(v), n) => {
            let env = crate::step::basic_step::env_of(task.env);
            let dir = crate::step::basic_step::text_of(task.dir);
            lemma_steady_update(a, b, ctx, env, dir, task.silent, v, n);
            match updated(ctx, env, dir, task.silent, v, a, n) {
                (Ok(c), n2) => match crate::task::label_of(task, default_label, v) {
                    Ok(label) => {
                        lemma_steady_settled(a, b, task, label, v, c, n2);
                    },
                    Err(_) => {},
                },
                _ => {},
            }
        },
        _ => {},
    }
}

} // verus!
