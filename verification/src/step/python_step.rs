//! The interpreter step: a script for Python, run directly, in a conda
//! environment or in a virtual environment.

use vstd::prelude::*;
use vstd::string::StringExecFns;
use crate::effect::replies;
use crate::effect::Answer;
use crate::effect::Pause;
use crate::gate::clone_gates;
use crate::gate::gates_of;
use crate::gate::RunGates;
use crate::run_context::option_text;
use crate::run_context::DirConfig;
use crate::run_context::EnvConfig;
use crate::run_context::RunContext;
use crate::step::bash_step::clone_env;
use crate::step::bash_step::clone_text;
use crate::step::basic_step::basic_outcome;
use crate::step::basic_step::env_of;
use crate::step::basic_step::step_result;
use crate::step::basic_step::text_of;
use crate::step::basic_step::BasicStep;
use crate::step::basic_step::Process;
use crate::step::basic_step::RawCommandEntry;
use crate::step::common::StepEvaluationResult;
use crate::text::strings_view;
use crate::vars::VariableSet;

verus! {

/// The interpreter of a step that names none.
pub fn default_executable() -> (r: String)
    ensures
        r@ == "python3"@,
{
    "python3".to_owned()
}

/// Whether the text is the script itself or the path of a script.
#[derive(Debug, Clone, Copy, PartialEq, Eq)]
pub enum PythonStepType {
    /// The text is the script: it is handed over after `-c`.
    Inline,
    /// The text is handed over as it is.
    Script,
}

impl PythonStepType {
    pub fn default() -> (r: PythonStepType)
        ensures
            r is Script,
    {
        PythonStepType::Script
    }
}

/// Run in the conda environment of this name.
#[derive(Debug, PartialEq)]
pub struct PythonStepTypeCondaConfig {
    pub conda: String,
    pub kind: PythonStepType,
}

/// Run in the virtual environment at this path.
#[derive(Debug, PartialEq)]
pub struct PythonStepTypeVenvConfig {
    pub venv: String,
    pub kind: PythonStepType,
}

/// How the interpreter is reached.
#[derive(Debug, PartialEq)]
pub enum PythonStepTypeConfig {
    Native(PythonStepType),
    Conda(PythonStepTypeCondaConfig),
    Venv(PythonStepTypeVenvConfig),
}

impl PythonStepTypeConfig {
    pub fn default() -> (r: PythonStepTypeConfig)
        ensures
            r == PythonStepTypeConfig::Native(PythonStepType::Script),
    {
        PythonStepTypeConfig::Native(PythonStepType::default())
    }
}

/// A step that runs a Python script.
#[derive(Debug, PartialEq)]
pub struct PythonStep {
    pub executable: String,
    pub py: String,
    pub env: EnvConfig,
    pub dir: DirConfig,
    pub run_if: Option<RunGates>,
    pub store: Option<String>,
    pub kind: PythonStepTypeConfig,
    pub silent: bool,
}

/// The entry line of an interpreter step.
pub open spec fn python_entry(executable: Seq<char>, kind: PythonStepTypeConfig) -> Seq<char> {
    match kind {
        PythonStepTypeConfig::Native(PythonStepType::Inline) => executable + " -c"@,
        PythonStepTypeConfig::Native(PythonStepType::Script) => executable,
        PythonStepTypeConfig::Conda(_) => "conda"@,
        PythonStepTypeConfig::Venv(_) => "bash -c"@,
    }
}

/// The command texts of an interpreter step. `-c` stands before the text
/// in inline mode only.
pub open spec fn python_texts(executable: Seq<char>, py: Seq<char>, kind: PythonStepTypeConfig) -> Seq<
    Seq<char>,
> {
    match kind {
        PythonStepTypeConfig::Native(_) => seq![py],
        PythonStepTypeConfig::Conda(c) => match c.kind {
            PythonStepType::Inline => seq!["run"@, "-n"@, c.conda@, executable, "-c"@, py],
            PythonStepType::Script => seq!["run"@, "-n"@, c.conda@, executable, py],
        },
        PythonStepTypeConfig::Venv(v) => match v.kind {
            PythonStepType::Inline => seq![
                "source "@ + v.venv@ + "/bin/activate && "@ + executable + " -c "@ + py,
            ],
            PythonStepType::Script => seq![
                "source "@ + v.venv@ + "/bin/activate && "@ + executable + " "@ + py,
            ],
        },
    }
}

impl PythonStep {
    /// The step that runs this script inline with the default interpreter.
    pub fn new(command: &str) -> (r: PythonStep)
        ensures
            r.executable@ == "python3"@,
            r.py@ == command@,
            r.kind == PythonStepTypeConfig::Native(PythonStepType::Inline),
            r.env is None,
            r.dir is None,
            r.run_if is None,
            r.store is None,
            !r.silent,
    {
        PythonStep {
            executable: default_executable(),
            py: command.to_owned(),
            kind: PythonStepTypeConfig::Native(PythonStepType::Inline),
            env: None,
            dir: None,
            run_if: None,
            store: None,
            silent: false,
        }
    }

    /// The step that prints a greeting.
    pub fn default() -> (r: PythonStep)
        ensures
            r.executable@ == "python3"@,
            r.py@ == "print(\"Hello World\")"@,
            r.kind == PythonStepTypeConfig::Native(PythonStepType::Inline),
            r.env is None,
            r.dir is None,
            r.run_if is None,
            r.store is None,
            !r.silent,
    {
        PythonStep::new("print(\"Hello World\")")
    }

    /// The process step that this step stands for.
    pub open spec fn desugared(self) -> Process {
        Process {
            entry: python_entry(self.executable@, self.kind),
            texts: python_texts(self.executable@, self.py@, self.kind),
            env: env_of(self.env),
            dir: text_of(self.dir),
            gates: gates_of(self.run_if),
            store: text_of(self.store),
            silent: self.silent,
        }
    }

    /// The process step that this step stands for.
    pub fn to_basic(&self) -> (r: BasicStep)
        ensures
            r@ == self.desugared(),
    {
        let (entry, cmd) = match &self.kind {
            PythonStepTypeConfig::Native(type_config) => {
                let entry = match type_config {
                    PythonStepType::Inline => {
                        let mut e = self.executable.clone();
                        e.append(" -c");
                        e
                    },
                    PythonStepType::Script => self.executable.clone(),
                };
                (entry, RawCommandEntry::Single(self.py.clone()))
            },
            PythonStepTypeConfig::Conda(type_config) => {
                let mut cmd = vec![
                    "run".to_owned(),
                    "-n".to_owned(),
                    type_config.conda.clone(),
                    self.executable.clone(),
                ];
                match type_config.kind {
                    PythonStepType::Inline => {
                        cmd.push("-c".to_owned());
                        cmd.push(self.py.clone());
                    },
                    PythonStepType::Script => {
                        cmd.push(self.py.clone());
                    },
                }
                assert(strings_view(cmd@) =~= python_texts(self.executable@, self.py@, self.kind));
                ("conda".to_owned(), RawCommandEntry::Many(cmd))
            },
            PythonStepTypeConfig::Venv(type_config) => {
                let mut line = "source ".to_owned();
                line.append(type_config.venv.as_str());
                line.append("/bin/activate && ");
                line.append(self.executable.as_str());
                match type_config.kind {
                    PythonStepType::Inline => {
                        line.append(" -c ");
                    },
                    PythonStepType::Script => {
                        line.append(" ");
                    },
                }
                line.append(self.py.as_str());
                ("bash -c".to_owned(), RawCommandEntry::Single(line))
            },
        };
        BasicStep {
            entry,
            cmd,
            env: clone_env(&self.env),
            dir: clone_text(&self.dir),
            run_if: clone_gates(&self.run_if),
            store: clone_text(&self.store),
            silent: self.silent,
        }
    }

    /// The key under which the step's output is stored, if any.
    pub fn get_store(&self) -> (r: Option<&String>)
        ensures
            option_text(r) == text_of(self.store),
    {
        self.store.as_ref()
    }

    /// Evaluates the step as the process step that it stands for.
    pub fn evaluate(
        &self,
        vars: &VariableSet,
        context: &RunContext,
        answers: &Vec<Answer>,
        cursor: &mut usize,
    ) -> (r: Result<StepEvaluationResult, Pause>)
        ensures
            step_result(
                r,
                basic_outcome(
                    self.desugared(),
                    vars@,
                    context@,
                    replies(answers@),
                    *old(cursor) as int,
                ).0,
            ),
            r is Ok ==> *final(cursor) == basic_outcome(
                self.desugared(),
                vars@,
                context@,
                replies(answers@),
                *old(cursor) as int,
            ).1,
    {
        self.to_basic().evaluate(vars, context, answers, cursor)
    }
}

} // verus!
