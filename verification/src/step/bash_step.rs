//! The shell step: a command text for a shell.

use vstd::prelude::*;
use vstd::string::StringExecFns;
use crate::effect::replies;
use crate::effect::Answer;
use crate::effect::Pause;
use crate::gate::clone_gates;
use crate::gate::gates_of;
use crate::gate::RunGates;
use crate::run_context::option_text;
use crate::run_context::DirConfig;
use crate::run_context::EnvConfig;
use crate::run_context::RunContext;
use crate::step::basic_step::basic_outcome;
use crate::step::basic_step::env_of;
use crate::step::basic_step::step_result;
use crate::step::basic_step::text_of;
use crate::step::basic_step::BasicStep;
use crate::step::basic_step::Process;
use crate::step::basic_step::RawCommandEntry;
use crate::step::common::StepEvaluationResult;
use crate::vars::VariableSet;

verus! {

/// The shell of a step that names none.
pub fn default_executable() -> (r: String)
    ensures
        r@ == "/bin/bash"@,
{
    "/bin/bash".to_owned()
}

/// A step that hands a command text to a shell.
#[derive(Debug, PartialEq)]
pub struct BashStep {
    pub executable: String,
    pub bash: String,
    pub env: EnvConfig,
    pub dir: DirConfig,
    pub run_if: Option<RunGates>,
    pub store: Option<String>,
    pub silent: bool,
}

/// A copy of an overlay that may be absent.
pub fn clone_env(env: &EnvConfig) -> (r: EnvConfig)
    ensures
        env_of(r) == env_of(*env),
{
    match env {
        Some(e) => Some(e.clone()),
        None => None,
    }
}

/// A copy of a text that may be absent.
pub fn clone_text(text: &Option<String>) -> (r: Option<String>)
    ensures
        text_of(r) == text_of(*text),
{
    match text {
        Some(t) => Some(t.clone()),
        None => None,
    }
}

impl BashStep {
    /// The step that runs this command in the default shell.
    pub fn new(command: &str) -> (r: BashStep)
        ensures
            r.executable@ == "/bin/bash"@,
            r.bash@ == command@,
            r.env is None,
            r.dir is None,
            r.run_if is None,
            r.store is None,
            !r.silent,
    {
        BashStep {
            executable: default_executable(),
            bash: command.to_owned(),
            env: None,
            dir: None,
            run_if: None,
            store: None,
            silent: false,
        }
    }

    /// The process step that this step stands for: the entry is the shell
    /// and `-c`, the command is the one text.
    pub open spec fn desugared(self) -> Process {
        Process {
            entry: self.executable@ + " -c"@,
            texts: seq![self.bash@],
            env: env_of(self.env),
            dir: text_of(self.dir),
            gates: gates_of(self.run_if),
            store: text_of(self.store),
            silent: self.silent,
        }
    }

    /// The process step that this step stands for.
    pub fn to_basic(&self) -> (r: BasicStep)
        ensures
            r@ == self.desugared(),
    {
        let mut entry = self.executable.clone();
        entry.append(" -c");
        BasicStep {
            entry,
            cmd: RawCommandEntry::Single(self.bash.clone()),
            env: clone_env(&self.env),
            dir: clone_text(&self.dir),
            run_if: clone_gates(&self.run_if),
            store: clone_text(&self.store),
            silent: self.silent,
        }
    }

    /// The key under which the step's output is stored, if any.
    pub fn get_store(&self) -> (r: Option<&String>)
        ensures
            option_text(r) == text_of(self.store),
    {
        self.store.as_ref()
    }

    /// Evaluates the step as the process step that it stands for.
    pub fn evaluate(
        &self,
        vars: &VariableSet,
        context: &RunContext,
        answers: &Vec<Answer>,
        cursor: &mut usize,
    ) -> (r: Result<StepEvaluationResult, Pause>)
        ensures
            step_result(
                r,
                basic_outcome(
                    self.desugared(),
                    vars@,
                    context@,
                    replies(answers@),
                    *old(cursor) as int,
                ).0,
            ),
            r is Ok ==> *final(cursor) == basic_outcome(
                self.desugared(),
                vars@,
                context@,
                replies(answers@),
                *old(cursor) as int,
            ).1,
    {
        self.to_basic().evaluate(vars, context, answers, cursor)
    }
}

} // verus!
