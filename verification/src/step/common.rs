//! What a step comes to, and the step as the configuration writes it.

use vstd::prelude::*;
use crate::effect::replies;
use crate::effect::Answer;
use crate::effect::Halt;
use crate::effect::Pause;
use crate::effect::Reply;
use crate::run_context::option_text;
use crate::run_context::Context;
use crate::run_context::RunContext;
use crate::step::bash_step::BashStep;
use crate::step::basic_step::basic_outcome;
use crate::step::basic_step::step_result;
use crate::step::basic_step::BasicStep;
use crate::step::basic_step::Process;
use crate::step::parallel_step::ParallelStepConfig;
use crate::step::python_step::PythonStep;
use crate::step::task_step::task_step_outcome;
use crate::step::task_step::TaskStepConfig;
use crate::vars::VariableSet;
use crate::vars::Vars;
use crate::step::task_step::PreparedTaskStep;
use crate::step::task_step::Prepared;

verus! {

/// Mathematical model of a [`StepEvaluationResult`].
pub enum Outcome {
    Skipped(int, Seq<char>),
    Completed(Seq<char>),
    SubmitTasks(Seq<Prepared>),
}

/// The models of a list of prepared subtasks.
pub open spec fn prepared_view(tasks: Seq<PreparedTaskStep>) -> Seq<Prepared> {
    Seq::new(tasks.len(), |i: int| tasks[i]@)
}

/// What evaluating a step came to.
#[derive(Debug, PartialEq)]
pub enum StepEvaluationResult {
    /// A gate of the step did not pass: its index and its expanded statement.
    SkippedDueToIfStatement((usize, String)),
    /// The step ran to its end with this output.
    Completed(String),
    /// The step asks for these subtasks to be run.
    SubmitTasks(Vec<PreparedTaskStep>),
}

impl View for StepEvaluationResult {
    type V = Outcome;

    open spec fn view(&self) -> Outcome {
        match self {
            StepEvaluationResult::SkippedDueToIfStatement(x) => Outcome::Skipped(x.0 as int, x.1@),
            StepEvaluationResult::Completed(s) => Outcome::Completed(s@),
            StepEvaluationResult::SubmitTasks(t) => Outcome::SubmitTasks(prepared_view(t@)),
        }
    }
}

/// A step that runs a process, in one of its three spellings.
#[derive(Debug, PartialEq)]
pub enum CommandConfig {
    Basic(BasicStep),
    Bash(BashStep),
    Python(PythonStep),
}

/// The process step that a command stands for.
pub open spec fn process_of(command: CommandConfig) -> Process {
    match command {
        CommandConfig::Basic(x) => x@,
        CommandConfig::Bash(x) => x.desugared(),
        CommandConfig::Python(x) => x.desugared(),
    }
}

impl CommandConfig {
    /// The key under which the step's output is stored, if any.
    pub fn get_store(&self) -> (r: Option<&String>)
        ensures
            option_text(r) == process_of(*self).store,
    {
        match self {
            CommandConfig::Basic(x) => x.get_store(),
            CommandConfig::Bash(x) => x.get_store(),
            CommandConfig::Python(x) => x.get_store(),
        }
    }

    /// Evaluates the command as the process step that it stands for.
    pub fn evaluate(
        &self,
        vars: &VariableSet,
        context: &RunContext,
        answers: &Vec<Answer>,
        cursor: &mut usize,
    ) -> (r: Result<StepEvaluationResult, Pause>)
        ensures
            step_result(
                r,
                basic_outcome(
                    process_of(*self),
                    vars@,
                    context@,
                    replies(answers@),
                    *old(cursor) as int,
                ).0,
            ),
            r is Ok ==> *final(cursor) == basic_outcome(
                process_of(*self),
                vars@,
                context@,
                replies(answers@),
                *old(cursor) as int,
            ).1,
    {
        match self {
            CommandConfig::Basic(x) => x.evaluate(vars, context, answers, cursor),
            CommandConfig::Bash(x) => x.evaluate(vars, context, answers, cursor),
            CommandConfig::Python(x) => x.evaluate(vars, context, answers, cursor),
        }
    }
}

/// One step that is no group: a bare command for the shell, a command
/// step, or a subtask step.
#[derive(Debug, PartialEq)]
pub enum SingularStepConfig {
    Simple(String),
    Config(CommandConfig),
    Task(TaskStepConfig),
}

/// A step of a task.
#[derive(Debug, PartialEq)]
pub enum StepConfig {
    Single(SingularStepConfig),
    Parallel(ParallelStepConfig),
}

/// The process step that a bare command stands for: the default shell with
/// `-c`, and the command as its one text.
pub open spec fn simple_process(command: Seq<char>) -> Process {
    Process {
        entry: "/bin/bash"@ + " -c"@,
        texts: seq![command],
        env: None,
        dir: None,
        gates: Seq::empty(),
        store: None,
        silent: false,
    }
}

/// The outcome of a step that is no group, with the index of the next answer.
pub open spec fn singular_outcome(
    step: SingularStepConfig,
    vars: Vars,
    ctx: Context,
    answers: Seq<Reply>,
    at: int,
) -> (Result<Outcome, Halt>, int) {
    match step {
        SingularStepConfig::Simple(x) => basic_outcome(simple_process(x@), vars, ctx, answers, at),
        SingularStepConfig::Config(x) => basic_outcome(process_of(x), vars, ctx, answers, at),
        SingularStepConfig::Task(x) => task_step_outcome(x, vars, ctx, answers, at),
    }
}

/// The key under which a step stores its output, if any.
pub open spec fn store_of(step: StepConfig) -> Option<Seq<char>> {
    match step {
        StepConfig::Single(SingularStepConfig::Config(x)) => process_of(x).store,
        _ => None,
    }
}

impl SingularStepConfig {
    /// The key under which the step's output is stored, if any.
    pub fn get_store(&self) -> (r: Option<&String>)
        ensures
            option_text(r) == store_of(StepConfig::Single(*self)),
    {
        match self {
            SingularStepConfig::Simple(_) => None,
            SingularStepConfig::Config(x) => x.get_store(),
            SingularStepConfig::Task(x) => x.get_store(),
        }
    }

    /// Evaluates the step.
    pub fn evaluate(
        &self,
        vars: &VariableSet,
        context: &RunContext,
        answers: &Vec<Answer>,
        cursor: &mut usize,
    ) -> (r: Result<StepEvaluationResult, Pause>)
        ensures
            step_result(
                r,
                singular_outcome(*self, vars@, context@, replies(answers@), *old(cursor) as int).0,
            ),
            r is Ok ==> *final(cursor) == singular_outcome(
                *self,
                vars@,
                context@,
                replies(answers@),
                *old(cursor) as int,
            ).1,
    {
        match self {
            SingularStepConfig::Simple(x) => {
                let step = BashStep::new(x.as_str());
                assert(step.desugared() == simple_process(x@));
                step.evaluate(vars, context, answers, cursor)
            },
            SingularStepConfig::Config(x) => x.evaluate(vars, context, answers, cursor),
            SingularStepConfig::Task(x) => x.evaluate(vars, context, answers, cursor),
        }
    }
}

impl StepConfig {
    /// The key under which the step's output is stored, if any.
    pub fn get_store(&self) -> (r: Option<&String>)
        ensures
            option_text(r) == store_of(*self),
    {
        match self {
            StepConfig::Single(x) => x.get_store(),
            StepConfig::Parallel(x) => x.get_store(),
        }
    }
}

/// What every step that is no group can do: be evaluated under variables
/// and a context, and name the key under which its output is stored.
pub trait StepMethods {
    /// What the step comes to, with the index of the next answer.
    spec fn outcome(&self, vars: Vars, ctx: Context, answers: Seq<Reply>, at: int) -> (
        Result<Outcome, Halt>,
        int,
    );

    /// The key under which the step's output is stored, if it names one.
    spec fn store(&self) -> Option<Seq<char>>;

    /// Evaluates the step.
    fn evaluate(
        &self,
        vars: &VariableSet,
        context: &RunContext,
        answers: &Vec<Answer>,
        cursor: &mut usize,
    ) -> (r: Result<StepEvaluationResult, Pause>)
        ensures
            step_result(
                r,
                self.outcome(vars@, context@, replies(answers@), *old(cursor) as int).0,
            ),
            r is Ok ==> *final(cursor) == self.outcome(
                vars@,
                context@,
                replies(answers@),
                *old(cursor) as int,
            ).1,
    ;

    /// The key under which the step's output is stored, if it names one.
    fn get_store(&self) -> (r: Option<&String>)
        ensures
            option_text(r) == self.store(),
    ;
}

impl StepMethods for BasicStep {
    open spec fn outcome(&self, vars: Vars, ctx: Context, answers: Seq<Reply>, at: int) -> (
        Result<Outcome, Halt>,
        int,
    ) {
        basic_outcome(self@, vars, ctx, answers, at)
    }

    open spec fn store(&self) -> Option<Seq<char>> {
        self@.store
    }

    fn evaluate(
        &self,
        vars: &VariableSet,
        context: &RunContext,
        answers: &Vec<Answer>,
        cursor: &mut usize,
    ) -> (r: Result<StepEvaluationResult, Pause>) {
        BasicStep::evaluate(self, vars, context, answers, cursor)
    }

    fn get_store(&self) -> (r: Option<&String>) {
        BasicStep::get_store(self)
    }
}

impl StepMethods for BashStep {
    open spec fn outcome(&self, vars: Vars, ctx: Context, answers: Seq<Reply>, at: int) -> (
        Result<Outcome, Halt>,
        int,
    ) {
        basic_outcome(self.desugared(), vars, ctx, answers, at)
    }

    open spec fn store(&self) -> Option<Seq<char>> {
        self.desugared().store
    }

    fn evaluate(
        &self,
        vars: &VariableSet,
        context: &RunContext,
        answers: &Vec<Answer>,
        cursor: &mut usize,
    ) -> (r: Result<StepEvaluationResult, Pause>) {
        BashStep::evaluate(self, vars, context, answers, cursor)
    }

    fn get_store(&self) -> (r: Option<&String>) {
        BashStep::get_store(self)
    }
}

impl StepMethods for PythonStep {
    open spec fn outcome(&self, vars: Vars, ctx: Context, answers: Seq<Reply>, at: int) -> (
        Result<Outcome, Halt>,
        int,
    ) {
        basic_outcome(self.desugared(), vars, ctx, answers, at)
    }

    open spec fn store(&self) -> Option<Seq<char>> {
        self.desugared().store
    }

    fn evaluate(
        &self,
        vars: &VariableSet,
        context: &RunContext,
        answers: &Vec<Answer>,
        cursor: &mut usize,
    ) -> (r: Result<StepEvaluationResult, Pause>) {
        PythonStep::evaluate(self, vars, context, answers, cursor)
    }

    fn get_store(&self) -> (r: Option<&String>) {
        PythonStep::get_store(self)
    }
}

impl StepMethods for CommandConfig {
    open spec fn outcome(&self, vars: Vars, ctx: Context, answers: Seq<Reply>, at: int) -> (
        Result<Outcome, Halt>,
        int,
    ) {
        basic_outcome(process_of(*self), vars, ctx, answers, at)
    }

    open spec fn store(&self) -> Option<Seq<char>> {
        process_of(*self).store
    }

    fn evaluate(
        &self,
        vars: &VariableSet,
        context: &RunContext,
        answers: &Vec<Answer>,
        cursor: &mut usize,
    ) -> (r: Result<StepEvaluationResult, Pause>) {
        CommandConfig::evaluate(self, vars, context, answers, cursor)
    }

    fn get_store(&self) -> (r: Option<&String>) {
        CommandConfig::get_store(self)
    }
}

impl StepMethods for TaskStepConfig {
    open spec fn outcome(&self, vars: Vars, ctx: Context, answers: Seq<Reply>, at: int) -> (
        Result<Outcome, Halt>,
        int,
    ) {
        task_step_outcome(*self, vars, ctx, answers, at)
    }

    open spec fn store(&self) -> Option<Seq<char>> {
        None
    }

    fn evaluate(
        &self,
        vars: &VariableSet,
        context: &RunContext,
        answers: &Vec<Answer>,
        cursor: &mut usize,
    ) -> (r: Result<StepEvaluationResult, Pause>) {
        TaskStepConfig::evaluate(self, vars, context, answers, cursor)
    }

    fn get_store(&self) -> (r: Option<&String>) {
        TaskStepConfig::get_store(self)
    }
}

impl StepMethods for SingularStepConfig {
    open spec fn outcome(&self, vars: Vars, ctx: Context, answers: Seq<Reply>, at: int) -> (
        Result<Outcome, Halt>,
        int,
    ) {
        singular_outcome(*self, vars, ctx, answers, at)
    }

    open spec fn store(&self) -> Option<Seq<char>> {
        store_of(StepConfig::Single(*self))
    }

    fn evaluate(
        &self,
        vars: &VariableSet,
        context: &RunContext,
        answers: &Vec<Answer>,
        cursor: &mut usize,
    ) -> (r: Result<StepEvaluationResult, Pause>) {
        SingularStepConfig::evaluate(self, vars, context, answers, cursor)
    }

    fn get_store(&self) -> (r: Option<&String>) {
        SingularStepConfig::get_store(self)
    }
}

} // verus!
