//! Run gates: predicates that decide whether a task or a step runs.

use vstd::prelude::*;
use vstd::string::StrSliceExecFns;
use vstd::string::StringExecFns;
use crate::effect::next_answer;
use crate::effect::replies;
use crate::effect::reply_at;
use crate::effect::Answer;
use crate::effect::Command;
use crate::effect::CommandLine;
use crate::effect::Halt;
use crate::effect::Pause;
use crate::effect::Query;
use crate::effect::Reply;
use crate::effect::Request;
use crate::error::DigError;
use crate::error::Failure;
use crate::run_context::Context;
use crate::run_context::RunContext;
use crate::text::find_char;
use crate::text::first_index;
use crate::text::slice;
use crate::text::strings_view;
use crate::text::trim;
use crate::text::trimmed;
use crate::token::evaluate_tokens;
use crate::token::evaluate_tokens_to_string;
use crate::token::expand_text;
use crate::token::expand_to_string;
use crate::value::json_text;
use crate::value::raw_or_rendered;
use crate::value::Json;
use crate::value::JsonValue;
use crate::vars::VariableSet;
use crate::vars::Vars;

verus! {

/// Mathematical model of a [`RunGate`].
pub enum Gate {
    Internal(Seq<char>),
    Test(Seq<char>),
}

/// Mathematical model of a [`RunGateNonZeroExit`].
pub struct Refusal {
    pub code: i32,
    pub statement: Seq<char>,
}

/// A gate that is tested by running `test` in a shell.
#[derive(Debug, PartialEq)]
pub struct RunGateTestConfig {
    pub test: String,
    pub allow: Option<Vec<usize>>,
    pub deny: Option<Vec<usize>>,
}

/// One gate: an equality that the library decides itself, or a shell test.
#[derive(Debug, PartialEq)]
pub enum RunGate {
    Internal(String),
    Test(RunGateTestConfig),
}

impl View for RunGate {
    type V = Gate;

    open spec fn view(&self) -> Gate {
        match self {
            RunGate::Internal(s) => Gate::Internal(s@),
            RunGate::Test(t) => Gate::Test(t.test@),
        }
    }
}

pub type RunGates = Vec<RunGate>;

/// A gate that did not pass: the exit code, and the expanded statement.
#[derive(Debug, PartialEq)]
pub struct RunGateNonZeroExit {
    pub code: i32,
    pub statement: String,
}

impl View for RunGateNonZeroExit {
    type V = Refusal;

    open spec fn view(&self) -> Refusal {
        Refusal { code: self.code, statement: self.statement@ }
    }
}

/// The models of a list of gates; none is an empty list.
pub open spec fn gates_view(gates: Option<&RunGates>) -> Seq<Gate> {
    match gates {
        Some(g) => Seq::new(g@.len(), |i: int| g@[i]@),
        None => Seq::empty(),
    }
}

/// The models of a list of gates that a step or task holds; none is an empty list.
pub open spec fn gates_of(gates: Option<RunGates>) -> Seq<Gate> {
    match gates {
        Some(g) => Seq::new(g@.len(), |i: int| g@[i]@),
        None => Seq::empty(),
    }
}

/// The text of a side in a statement: a string as it is, anything else as JSON.
pub open spec fn side_text(v: Json) -> Seq<char> {
    raw_or_rendered(v, json_text(v))
}

/// The outcome of comparing two values: equal values pass; others are
/// refused with code 1 and the texts of the two sides around ` = `.
pub open spec fn compared(lhs: Json, rhs: Json) -> Option<Refusal> {
    if lhs == rhs {
        None
    } else {
        Some(Refusal { code: 1, statement: side_text(lhs) + " = "@ + side_text(rhs) })
    }
}

/// The outcome of an internal gate. Without `=` the trimmed entry is
/// expanded and compared with `true`. With one `=` the trimmed sides are
/// expanded and compared, the right one first. A second `=` is an error.
pub open spec fn internal_gate(entry: Seq<char>, env: Vars) -> Result<Option<Refusal>, Failure> {
    let i = first_index(entry, '=', 0);
    if i >= entry.len() {
        match expand_text(trim(entry), env) {
            Err(e) => Err(e),
            Ok(rhs) => Ok(compared(Json::Bool(true), rhs)),
        }
    } else if first_index(entry, '=', i + 1) < entry.len() {
        Err(Failure::GateSyntax)
    } else {
        match expand_text(trim(entry.subrange(i + 1, entry.len() as int)), env) {
            Err(e) => Err(e),
            Ok(rhs) => match expand_text(trim(entry.subrange(0, i)), env) {
                Err(e) => Err(e),
                Ok(lhs) => Ok(compared(lhs, rhs)),
            },
        }
    }
}

/// The process that tests a statement: `bash -c "test <statement>"` under
/// the overlay and in the directory of the context, silently.
pub open spec fn test_process(statement: Seq<char>, ctx: Context) -> CommandLine {
    CommandLine {
        program: "bash"@,
        args: seq!["-c"@, "test "@ + statement],
        env: ctx.env,
        dir: ctx.dir,
        shown: "test "@ + statement,
        silent: true,
    }
}

/// What the answer to a test means: exit code 0 passes, any other code
/// refuses with that code and the statement.
pub open spec fn judged(statement: Seq<char>, reply: Reply) -> Result<Option<Refusal>, Failure> {
    match reply {
        Reply::Exit(Some(code), _, _) => if code == 0 {
            Ok(None)
        } else {
            Ok(Some(Refusal { code, statement }))
        },
        Reply::Exit(None, _, _) => Err(Failure::TestCanceled),
        Reply::SpawnFailed(m) => Err(Failure::Subprocess(m)),
        _ => Err(Failure::UnexpectedAnswer),
    }
}

/// The outcome of a shell test, with the index of the next answer.
pub open spec fn test_gate(test: Seq<char>, env: Vars, ctx: Context, answers: Seq<Reply>, at: int) -> (
    Result<Option<Refusal>, Halt>,
    int,
) {
    match expand_to_string(test, "test-gate"@, env) {
        Err(e) => (Err(Halt::Fail(e)), at),
        Ok(statement) => match reply_at(answers, at, Query::Run(test_process(statement, ctx))) {
            Err(h) => (Err(h), at),
            Ok(reply) => match judged(statement, reply) {
                Ok(o) => (Ok(o), at + 1),
                Err(e) => (Err(Halt::Fail(e)), at + 1),
            },
        },
    }
}

/// The outcome of one gate, with the index of the next answer.
pub open spec fn gate_outcome(gate: Gate, env: Vars, ctx: Context, answers: Seq<Reply>, at: int) -> (
    Result<Option<Refusal>, Halt>,
    int,
) {
    match gate {
        Gate::Internal(entry) => match internal_gate(entry, env) {
            Ok(o) => (Ok(o), at),
            Err(e) => (Err(Halt::Fail(e)), at),
        },
        Gate::Test(test) => test_gate(test, env, ctx, answers, at),
    }
}

/// The first gate from index `i` on that does not pass, with its index;
/// none if all pass. An error or a missing answer ends the walk.
pub open spec fn gates_from(
    gates: Seq<Gate>,
    i: int,
    env: Vars,
    ctx: Context,
    answers: Seq<Reply>,
    at: int,
) -> (Result<Option<(int, Refusal)>, Halt>, int)
    decreases gates.len() - i,
{
    if i < 0 || i >= gates.len() {
        (Ok(None), at)
    } else {
        match gate_outcome(gates[i], env, ctx, answers, at) {
            (Err(h), next) => (Err(h), next),
            (Ok(Some(refusal)), next) => (Ok(Some((i, refusal))), next),
            (Ok(None), next) => gates_from(gates, i + 1, env, ctx, answers, next),
        }
    }
}

/// Whether the outcome of a gate is the one that the model gives.
pub open spec fn gate_result(
    r: Result<Option<RunGateNonZeroExit>, Pause>,
    model: Result<Option<Refusal>, Halt>,
) -> bool {
    match r {
        Ok(Some(x)) => model == Ok::<Option<Refusal>, Halt>(Some(x@)),
        Ok(None) => model == Ok::<Option<Refusal>, Halt>(None),
        Err(p) => model == Err::<Option<Refusal>, Halt>(p@),
    }
}

/// Compares two expanded sides.
pub fn compare_sides(lhs: &JsonValue, rhs: &JsonValue) -> (r: Option<RunGateNonZeroExit>)
    ensures
        match r {
            Some(x) => compared(lhs@, rhs@) == Some(x@),
            None => compared(lhs@, rhs@) is None,
        },
{
    if lhs.same(rhs) {
        None
    } else {
        let mut statement = lhs.to_plain_text();
        statement.append(" = ");
        statement.append(rhs.to_plain_text().as_str());
        Some(RunGateNonZeroExit { code: 1, statement })
    }
}

impl RunGateTestConfig {
    /// The process that tests an expanded statement in a context.
    pub fn command(statement: &str, context: &RunContext) -> (r: Command)
        ensures
            r@ == test_process(statement@, context@),
    {
        let mut script = "test ".to_owned();
        script.append(statement);
        let shown = script.clone();
        let args = vec!["-c".to_owned(), script];
        assert(strings_view(args@) =~= seq!["-c"@, "test "@ + statement@]);
        let copy = context.clone();
        Command {
            program: "bash".to_owned(),
            args,
            env: copy.env,
            dir: copy.dir,
            shown,
            silent: true,
        }
    }

    /// What the answer to a test of `statement` means.
    pub fn judge(statement: String, answer: &Answer) -> (r: Result<
        Option<RunGateNonZeroExit>,
        DigError,
    >)
        ensures
            match r {
                Ok(Some(x)) => judged(statement@, answer@) == Ok::<Option<Refusal>, Failure>(
                    Some(x@),
                ),
                Ok(None) => judged(statement@, answer@) == Ok::<Option<Refusal>, Failure>(None),
                Err(e) => judged(statement@, answer@) == Err::<Option<Refusal>, Failure>(e@),
            },
    {
        match answer {
            Answer::Exit(Some(code), _, _) => {
                if *code == 0 {
                    Ok(None)
                } else {
                    Ok(Some(RunGateNonZeroExit { code: *code, statement }))
                }
            },
            Answer::Exit(None, _, _) => Err(DigError::TestCanceled),
            Answer::SpawnFailed(m) => Err(DigError::Subprocess(m.clone())),
            _ => Err(DigError::UnexpectedAnswer),
        }
    }

    /// Expands the statement, asks for `test <statement>` to be run in a
    /// shell under the context, and judges by the exit code.
    pub fn evaluate(
        &self,
        vars: &VariableSet,
        context: &RunContext,
        answers: &Vec<Answer>,
        cursor: &mut usize,
    ) -> (r: Result<Option<RunGateNonZeroExit>, Pause>)
        ensures
            gate_result(
                r,
                test_gate(self.test@, vars@, context@, replies(answers@), *old(cursor) as int).0,
            ),
            r is Ok ==> *final(cursor) == test_gate(
                self.test@,
                vars@,
                context@,
                replies(answers@),
                *old(cursor) as int,
            ).1,
    {
        let statement = match evaluate_tokens_to_string(self.test.as_str(), "test-gate", vars) {
            Ok(s) => s,
            Err(e) => {
                return Err(Pause::Fail(e));
            },
        };
        let command = RunGateTestConfig::command(statement.as_str(), context);
        let answer = match next_answer(answers, cursor, Request::Run(command)) {
            Ok(a) => a,
            Err(p) => {
                return Err(p);
            },
        };
        match RunGateTestConfig::judge(statement, answer) {
            Ok(o) => Ok(o),
            Err(e) => Err(Pause::Fail(e)),
        }
    }
}

impl RunGate {
    /// Evaluates one gate: nothing comes back where it holds, else the refusal.
    pub fn evaluate(
        &self,
        vars: &VariableSet,
        context: &RunContext,
        answers: &Vec<Answer>,
        cursor: &mut usize,
    ) -> (r: Result<Option<RunGateNonZeroExit>, Pause>)
        ensures
            gate_result(
                r,
                gate_outcome(self@, vars@, context@, replies(answers@), *old(cursor) as int).0,
            ),
            r is Ok ==> *final(cursor) == gate_outcome(
                self@,
                vars@,
                context@,
                replies(answers@),
                *old(cursor) as int,
            ).1,
    {
        match self {
            RunGate::Internal(entry) => match RunGate::evaluate_internal(entry.as_str(), vars) {
                Ok(o) => Ok(o),
                Err(e) => Err(Pause::Fail(e)),
            },
            RunGate::Test(test_config) => test_config.evaluate(vars, context, answers, cursor),
        }
    }

    /// The outcome of an internal gate: `lhs = rhs`, or a bare `rhs` that
    /// is compared with `true`.
    pub fn evaluate_internal(entry: &str, vars: &VariableSet) -> (r: Result<
        Option<RunGateNonZeroExit>,
        DigError,
    >)
        ensures
            match r {
                Ok(Some(x)) => internal_gate(entry@, vars@) == Ok::<Option<Refusal>, Failure>(
                    Some(x@),
                ),
                Ok(None) => internal_gate(entry@, vars@) == Ok::<Option<Refusal>, Failure>(None),
                Err(e) => internal_gate(entry@, vars@) == Err::<Option<Refusal>, Failure>(e@),
            },
    {
        let n = entry.unicode_len();
        let i = find_char(entry, '=', 0);
        if i >= n {
            let rhs = match evaluate_tokens(trimmed(entry).as_str(), vars) {
                Ok(v) => v,
                Err(e) => {
                    return Err(e);
                },
            };
            return Ok(compare_sides(&JsonValue::Bool(true), &rhs));
        }
        if find_char(entry, '=', i + 1) < n {
            return Err(DigError::GateSyntax);
        }
        let right = slice(entry, i + 1, n);
        let left = slice(entry, 0, i);
        let rhs = match evaluate_tokens(trimmed(right.as_str()).as_str(), vars) {
            Ok(v) => v,
            Err(e) => {
                return Err(e);
            },
        };
        let lhs = match evaluate_tokens(trimmed(left.as_str()).as_str(), vars) {
            Ok(v) => v,
            Err(e) => {
                return Err(e);
            },
        };
        Ok(compare_sides(&lhs, &rhs))
    }
}

/// Walks the gates in order: the first that does not pass ends the walk and
/// comes back with its index; none comes back if all pass.
pub fn test_run_gates(
    statements: Option<&RunGates>,
    vars: &VariableSet,
    context: &RunContext,
    answers: &Vec<Answer>,
    cursor: &mut usize,
) -> (r: Result<Option<(usize, RunGateNonZeroExit)>, Pause>)
    ensures
        ({
            let model = gates_from(
                gates_view(statements),
                0,
                vars@,
                context@,
                replies(answers@),
                *old(cursor) as int,
            );
            match r {
                Ok(Some((i, x))) => model.0 == Ok::<Option<(int, Refusal)>, Halt>(
                    Some((i as int, x@)),
                ) && *final(cursor) == model.1,
                Ok(None) => model.0 == Ok::<Option<(int, Refusal)>, Halt>(None) && *final(cursor)
                    == model.1,
                Err(p) => model.0 == Err::<Option<(int, Refusal)>, Halt>(p@),
            }
        }),
{
    match statements {
        None => Ok(None),
        Some(gates) => {
            let ghost start = *cursor as int;
            let mut i: usize = 0;
            while i < gates.len()
                invariant
                    i <= gates.len(),
                    gates_from(gates_view(statements), 0, vars@, context@, replies(answers@), start)
                        == gates_from(
                        gates_view(statements),
                        i as int,
                        vars@,
                        context@,
                        replies(answers@),
                        *cursor as int,
                    ),
                    statements == Some(gates),
                    start == *old(cursor),
                decreases gates.len() - i,
            {
                assert(gates_view(statements)[i as int] == gates[i as int]@);
                match gates[i].evaluate(vars, context, answers, cursor) {
                    Err(p) => {
                        return Err(p);
                    },
                    Ok(Some(exit)) => {
                        return Ok(Some((i, exit)));
                    },
                    Ok(None) => {},
                }
                i += 1;
            }
            Ok(None)
        },
    }
}

impl Clone for RunGate {
    fn clone(&self) -> (r: RunGate)
        ensures
            r@ == self@,
    {
        match self {
            RunGate::Internal(s) => RunGate::Internal(s.clone()),
            RunGate::Test(t) => RunGate::Test(
                RunGateTestConfig { test: t.test.clone(), allow: t.allow.clone(), deny: t.deny.clone() },
            ),
        }
    }
}

/// A copy of a list of gates.
pub fn clone_gates(gates: &Option<RunGates>) -> (r: Option<RunGates>)
    ensures
        gates_of(r) == gates_of(*gates),
        r is Some == gates is Some,
{
    match gates {
        None => None,
        Some(list) => {
            let mut out: Vec<RunGate> = Vec::new();
            let mut i: usize = 0;
            while i < list.len()
                invariant
                    i <= list.len(),
                    out.len() == i,
                    forall|j: int| 0 <= j < i ==> out[j]@ == list[j]@,
                decreases list.len() - i,
            {
                out.push(list[i].clone());
                i += 1;
            }
            let r = Some(out);
            assert(gates_of(r) =~= gates_of(*gates));
            r
        },
    }
}

} // verus!
