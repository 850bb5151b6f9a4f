//! The generic process step: an entry line, and the user's command after it.

use vstd::prelude::*;
use crate::common::contextualize_command;
use crate::effect::next_answer;
use crate::effect::replies;
use crate::effect::reply_at;
use crate::effect::Answer;
use crate::effect::Command;
use crate::effect::CommandLine;
use crate::effect::Halt;
use crate::effect::Pause;
use crate::effect::Query;
use crate::effect::Reply;
use crate::effect::Request;
use crate::error::DigError;
use crate::error::Failure;
use crate::gate::gates_from;
use crate::gate::Gate;
use crate::gate::gates_of;
use crate::gate::test_run_gates;
use crate::gate::RunGates;
use crate::run_context::option_text;
use crate::run_context::updated;
use crate::run_context::Context;
use crate::run_context::DirConfig;
use crate::run_context::EnvConfig;
use crate::run_context::Pairs;
use crate::run_context::RunContext;
use crate::step::common::Outcome;
use crate::step::common::StepEvaluationResult;
use crate::text::join;
use crate::text::join_text;
use crate::text::split;
use crate::text::split_text;
use crate::text::strings_view;
use crate::text::trim;
use crate::text::trimmed;
use crate::token::evaluate_all_to_strings;
use crate::token::evaluate_tokens_to_string;
use crate::token::expand_all;
use crate::token::expand_to_string;
use crate::vars::VariableSet;
use crate::vars::Vars;

verus! {

/// The entry line of a step that names none.
pub fn default_command_entry() -> (r: String)
    ensures
        r@ == "bash -c"@,
{
    "bash -c".to_owned()
}

/// The user's command as it is written: nothing, one text, or several.
#[derive(Debug, PartialEq)]
pub enum RawCommandEntry {
    Empty,
    Single(String),
    Many(Vec<String>),
}

/// The user's command after expansion: nothing, one text, or several.
#[derive(Debug, PartialEq)]
pub enum CommandEntry {
    Empty,
    Single(String),
    Many(Vec<String>),
}

impl Clone for RawCommandEntry {
    fn clone(&self) -> (r: RawCommandEntry)
        ensures
            command_texts(r) == command_texts(*self),
            r is Single == self is Single,
            r is Many == self is Many,
    {
        match self {
            RawCommandEntry::Empty => RawCommandEntry::Empty,
            RawCommandEntry::Single(t) => {
                let r = RawCommandEntry::Single(t.clone());
                assert(command_texts(r) =~= command_texts(*self));
                r
            },
            RawCommandEntry::Many(ts) => {
                let r = RawCommandEntry::Many(clone_texts(ts));
                r
            },
        }
    }
}

/// A copy of a list of texts.
pub fn clone_texts(texts: &Vec<String>) -> (r: Vec<String>)
    ensures
        strings_view(r@) == strings_view(texts@),
{
    let mut out: Vec<String> = Vec::new();
    let mut i: usize = 0;
    while i < texts.len()
        invariant
            i <= texts.len(),
            out.len() == i,
            forall|j: int| 0 <= j < i ==> out[j]@ == texts[j]@,
        decreases texts.len() - i,
    {
        out.push(texts[i].clone());
        i += 1;
    }
    assert(strings_view(out@) =~= strings_view(texts@));
    out
}

/// The texts of a user's command, in order.
pub open spec fn command_texts(cmd: RawCommandEntry) -> Seq<Seq<char>> {
    match cmd {
        RawCommandEntry::Empty => Seq::empty(),
        RawCommandEntry::Single(t) => seq![t@],
        RawCommandEntry::Many(ts) => strings_view(ts@),
    }
}

/// A step that runs a process.
#[derive(Debug, PartialEq)]
pub struct BasicStep {
    pub cmd: RawCommandEntry,
    pub entry: String,
    pub env: EnvConfig,
    pub dir: DirConfig,
    pub run_if: Option<RunGates>,
    pub store: Option<String>,
    pub silent: bool,
}

/// Mathematical model of a [`BasicStep`].
pub struct Process {
    pub entry: Seq<char>,
    pub texts: Seq<Seq<char>>,
    pub env: Option<Pairs>,
    pub dir: Option<Seq<char>>,
    pub gates: Seq<Gate>,
    pub store: Option<Seq<char>>,
    pub silent: bool,
}

impl View for BasicStep {
    type V = Process;

    open spec fn view(&self) -> Process {
        Process {
            entry: self.entry@,
            texts: command_texts(self.cmd),
            env: env_of(self.env),
            dir: text_of(self.dir),
            gates: gates_of(self.run_if),
            store: text_of(self.store),
            silent: self.silent,
        }
    }
}

/// Each part without its leading and trailing white space.
pub open spec fn trim_each(parts: Seq<Seq<char>>) -> Seq<Seq<char>> {
    Seq::new(parts.len(), |i: int| trim(parts[i]))
}

/// The model of an overlay that a step or task holds.
pub open spec fn env_of(env: Option<crate::run_context::EnvMap>) -> Option<Pairs> {
    match env {
        Some(e) => Some(e@),
        None => None,
    }
}

/// The model of a text that a step or task holds.
pub open spec fn text_of(text: Option<String>) -> Option<Seq<char>> {
    match text {
        Some(t) => Some(t@),
        None => None,
    }
}

/// The command line of a step, without a context: the expanded entry is
/// split at spaces, its first part is the program and the others are the
/// first arguments, as they are; the expanded texts of the user's command
/// follow. It is shown as the trimmed parts of the entry and the user's
/// texts, with a space between neighbours.
pub open spec fn built_command(entry: Seq<char>, texts: Seq<Seq<char>>, silent: bool, env: Vars) -> Result<
    CommandLine,
    Failure,
> {
    match expand_to_string(entry, "command"@, env) {
        Err(e) => Err(e),
        Ok(line) => {
            let parts = split(line, ' ');
            match expand_all(texts, texts.len() as int, "command"@, env) {
                Err(e) => Err(e),
                Ok(extra) => Ok(
                    CommandLine {
                        program: parts[0],
                        args: parts.subrange(1, parts.len() as int) + extra,
                        env: None,
                        dir: None,
                        shown: join(trim_each(parts) + extra, " "@),
                        silent,
                    },
                ),
            }
        },
    }
}

/// What the end of a step's process means: exit code 0 completes the step
/// with the trimmed stdout; anything else fails with the trimmed stderr.
pub open spec fn finished(reply: Reply) -> Result<Outcome, Failure> {
    match reply {
        Reply::Exit(code, out, err) => if code == Some(0i32) {
            Ok(Outcome::Completed(trim(out)))
        } else {
            Err(Failure::Subprocess(trim(err)))
        },
        Reply::SpawnFailed(m) => Err(Failure::Subprocess(m)),
        _ => Err(Failure::UnexpectedAnswer),
    }
}

/// The outcome of a process step, with the index of the next answer: the
/// step's overlays are applied to the context, its gates are walked, and
/// if they pass its command is run under that context.
pub open spec fn basic_outcome(
    step: Process,
    vars: Vars,
    ctx: Context,
    answers: Seq<Reply>,
    at: int,
) -> (Result<Outcome, Halt>, int) {
    match updated(ctx, step.env, step.dir, step.silent, vars, answers, at) {
        (Err(h), n) => (Err(h), n),
        (Ok(c), n) => match gates_from(step.gates, 0, vars, c, answers, n) {
            (Err(h), n2) => (Err(h), n2),
            (Ok(Some((i, refusal))), n2) => (Ok(Outcome::Skipped(i, refusal.statement)), n2),
            (Ok(None), n2) => match built_command(step.entry, step.texts, c.silent, vars) {
                Err(e) => (Err(Halt::Fail(e)), n2),
                Ok(line) => match reply_at(
                    answers,
                    n2,
                    Query::Run(CommandLine { env: c.env, dir: c.dir, ..line }),
                ) {
                    Err(h) => (Err(h), n2),
                    Ok(reply) => match finished(reply) {
                        Ok(o) => (Ok(o), n2 + 1),
                        Err(e) => (Err(Halt::Fail(e)), n2 + 1),
                    },
                },
            },
        },
    }
}

/// Whether the outcome of a step is the one that the model gives.
pub open spec fn step_result(r: Result<StepEvaluationResult, Pause>, model: Result<Outcome, Halt>) -> bool {
    match r {
        Ok(v) => model == Ok::<Outcome, Halt>(v@),
        Err(p) => model == Err::<Outcome, Halt>(p@),
    }
}

impl BasicStep {
    /// The command line of the step, without a context.
    pub fn build_command(&self, silent: bool, vars: &VariableSet) -> (r: Result<Command, DigError>)
        ensures
            match r {
                Ok(c) => built_command(self.entry@, command_texts(self.cmd), silent, vars@) == Ok::<
                    CommandLine,
                    Failure,
                >(c@),
                Err(e) => built_command(self.entry@, command_texts(self.cmd), silent, vars@)
                    == Err::<CommandLine, Failure>(e@),
            },
    {
        let line = match evaluate_tokens_to_string(self.entry.as_str(), "command", vars) {
            Ok(l) => l,
            Err(e) => {
                return Err(e);
            },
        };
        let parts = split_text(line.as_str(), ' ');
        let ghost texts = command_texts(self.cmd);
        let extra: Vec<String> = match &self.cmd {
            RawCommandEntry::Empty => {
                let v: Vec<String> = Vec::new();
                assert(strings_view(v@) =~= Seq::<Seq<char>>::empty());
                v
            },
            RawCommandEntry::Single(t) => {
                let one = match evaluate_tokens_to_string(t.as_str(), "command", vars) {
                    Ok(s) => s,
                    Err(e) => {
                        assert(expand_all(texts, 0, "command"@, vars@) is Ok);
                        return Err(e);
                    },
                };
                let v = vec![one];
                assert(expand_all(texts, 0, "command"@, vars@) is Ok);
                assert(strings_view(v@) =~= Seq::<Seq<char>>::empty().push(one@));
                v
            },
            RawCommandEntry::Many(ts) => match evaluate_all_to_strings(ts, "command", vars) {
                Ok(v) => v,
                Err(e) => {
                    return Err(e);
                },
            },
        };
        let program = parts[0].clone();
        let mut args: Vec<String> = Vec::new();
        let mut shown_parts: Vec<String> = Vec::new();
        let mut i: usize = 0;
        while i < parts.len()
            invariant
                i <= parts.len(),
                parts.len() >= 1,
                strings_view(args@) == (if i == 0 {
                    Seq::<Seq<char>>::empty()
                } else {
                    strings_view(parts@).subrange(1, i as int)
                }),
                strings_view(shown_parts@) == trim_each(strings_view(parts@)).subrange(0, i as int),
            decreases parts.len() - i,
        {
            let ghost args_before = strings_view(args@);
            let ghost shown_before = strings_view(shown_parts@);
            if i > 0 {
                args.push(parts[i].clone());
                assert(strings_view(args@) =~= args_before.push(parts[i as int]@));
            }
            let t = trimmed(parts[i].as_str());
            shown_parts.push(t);
            assert(strings_view(shown_parts@) =~= shown_before.push(trim(parts[i as int]@)));
            assert(strings_view(args@) =~= strings_view(parts@).subrange(1, i + 1));
            assert(strings_view(shown_parts@) =~= trim_each(strings_view(parts@)).subrange(
                0,
                i + 1,
            ));
            i += 1;
        }
        let mut j: usize = 0;
        let ghost head_args = strings_view(parts@).subrange(1, parts@.len() as int);
        let ghost head_shown = trim_each(strings_view(parts@));
        assert(strings_view(shown_parts@) =~= head_shown);
        assert(strings_view(args@) =~= head_args);
        while j < extra.len()
            invariant
                j <= extra.len(),
                strings_view(args@) == head_args + strings_view(extra@).subrange(0, j as int),
                strings_view(shown_parts@) == head_shown + strings_view(extra@).subrange(
                    0,
                    j as int,
                ),
            decreases extra.len() - j,
        {
            let ghost args_before = strings_view(args@);
            let ghost shown_before = strings_view(shown_parts@);
            args.push(extra[j].clone());
            shown_parts.push(extra[j].clone());
            assert(strings_view(args@) =~= args_before.push(extra[j as int]@));
            assert(strings_view(shown_parts@) =~= shown_before.push(extra[j as int]@));
            assert(strings_view(args@) =~= head_args + strings_view(extra@).subrange(0, j + 1));
            assert(strings_view(shown_parts@) =~= head_shown + strings_view(extra@).subrange(
                0,
                j + 1,
            ));
            j += 1;
        }
        assert(strings_view(extra@).subrange(0, j as int) =~= strings_view(extra@));
        let shown = join_text(&shown_parts, " ");
        Ok(Command { program, args, env: None, dir: None, shown, silent })
    }

    /// The key under which the step's output is stored, if any.
    pub fn get_store(&self) -> (r: Option<&String>)
        ensures
            option_text(r) == text_of(self.store),
    {
        self.store.as_ref()
    }

    /// What the end of the step's process means.
    pub fn finish(answer: &Answer) -> (r: Result<StepEvaluationResult, DigError>)
        ensures
            match r {
                Ok(v) => finished(answer@) == Ok::<Outcome, Failure>(v@),
                Err(e) => finished(answer@) == Err::<Outcome, Failure>(e@),
            },
    {
        match answer {
            Answer::Exit(code, out, err) => {
                let ok = match code {
                    Some(c) => *c == 0,
                    None => false,
                };
                if ok {
                    Ok(StepEvaluationResult::Completed(trimmed(out.as_str())))
                } else {
                    Err(DigError::Subprocess(trimmed(err.as_str())))
                }
            },
            Answer::SpawnFailed(m) => Err(DigError::Subprocess(m.clone())),
            _ => Err(DigError::UnexpectedAnswer),
        }
    }

    /// Evaluates the step: applies its overlays to a copy of the context,
    /// walks its gates, and if they pass asks for its command to be run.
    pub fn evaluate(
        &self,
        vars: &VariableSet,
        context: &RunContext,
        answers: &Vec<Answer>,
        cursor: &mut usize,
    ) -> (r: Result<StepEvaluationResult, Pause>)
        ensures
            step_result(
                r,
                basic_outcome(self@, vars@, context@, replies(answers@), *old(cursor) as int).0,
            ),
            r is Ok ==> *final(cursor) == basic_outcome(
                self@,
                vars@,
                context@,
                replies(answers@),
                *old(cursor) as int,
            ).1,
    {
        let mut context = context.clone();
        match context.update(self.env.as_ref(), self.dir.as_ref(), self.silent, vars, answers, cursor) {
            Ok(()) => {},
            Err(p) => {
                return Err(p);
            },
        }
        match test_run_gates(self.run_if.as_ref(), vars, &context, answers, cursor) {
            Err(p) => {
                return Err(p);
            },
            Ok(Some((i, exit))) => {
                return Ok(StepEvaluationResult::SkippedDueToIfStatement((i, exit.statement)));
            },
            Ok(None) => {},
        }
        let mut command = match self.build_command(context.silent, vars) {
            Ok(c) => c,
            Err(e) => {
                return Err(Pause::Fail(e));
            },
        };
        contextualize_command(&mut command, &context);
        let answer = match next_answer(answers, cursor, Request::Run(command)) {
            Ok(a) => a,
            Err(p) => {
                return Err(p);
            },
        };
        match BasicStep::finish(answer) {
            Ok(o) => Ok(o),
            Err(e) => Err(Pause::Fail(e)),
        }
    }
}

} // verus!
