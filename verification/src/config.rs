//! The configuration: global variables and overlays, and the tasks by name.

use vstd::prelude::*;
use crate::effect::replies;
use crate::effect::Answer;
use crate::effect::Halt;
use crate::effect::Pause;
use crate::error::DigError;
use crate::error::Failure;
use crate::raw::raw_entries;
use crate::raw::raw_insert;
use crate::raw::raw_inserted;
use crate::raw::raw_new;
use crate::raw::stacked_raw;
use crate::raw::RawVariable;
use crate::raw::RawVariableMap;
use crate::run_context::Context;
use crate::run_context::DirConfig;
use crate::run_context::EnvConfig;
use crate::run_context::ForcingContext;
use crate::run_context::RunContext;
use crate::task::TaskConfig;
use crate::vars::StackMode;
use crate::vars::VariableSet;
use crate::vars::Vars;

verus! {

/// The version of a configuration that names none.
pub fn default_version() -> (r: String)
    ensures
        r@ == "1"@,
{
    "1".to_owned()
}

/// A configuration.
#[derive(Debug, PartialEq)]
pub struct DigConfig {
    pub version: String,
    pub vars: Option<RawVariableMap>,
    /// The tasks by name. Of two tasks with one name the later counts.
    pub tasks: Vec<(String, TaskConfig)>,
    pub env: EnvConfig,
    pub dir: DirConfig,
}

/// Index of the last of the first `n` tasks with this name; -1 if there is none.
pub open spec fn task_index(tasks: Seq<(String, TaskConfig)>, key: Seq<char>, n: int) -> int
    decreases n,
{
    if n <= 0 || n > tasks.len() {
        -1
    } else if tasks[n - 1].0@ == key {
        n - 1
    } else {
        task_index(tasks, key, n - 1)
    }
}

/// The raw variables of a configuration; none is an empty list.
pub open spec fn globals_of(vars: Option<RawVariableMap>) -> Seq<(String, RawVariable)> {
    match vars {
        Some(m) => raw_entries(m),
        None => Seq::empty(),
    }
}

impl DigConfig {
    /// The configuration without tasks, variables or overlays.
    pub fn new() -> (r: DigConfig)
        ensures
            r.version@ == "1"@,
            r.vars is None,
            r.tasks@.len() == 0,
            r.env is None,
            r.dir is None,
    {
        DigConfig { version: default_version(), vars: None, tasks: Vec::new(), env: None, dir: None }
    }

    /// Adds a global raw variable, or replaces the one of this key.
    pub fn insert_raw_variable(&mut self, key: String, value: RawVariable)
        ensures
            final(self).vars is Some,
            raw_entries(final(self).vars->0) == raw_inserted(globals_of(old(self).vars), key, value),
            final(self).version == old(self).version,
            final(self).tasks == old(self).tasks,
            final(self).env == old(self).env,
            final(self).dir == old(self).dir,
    {
        match &mut self.vars {
            Some(vars) => {
                raw_insert(vars, key, value);
            },
            None => {
                let mut vars = raw_new();
                assert(raw_entries(vars) =~= Seq::<(String, RawVariable)>::empty());
                raw_insert(&mut vars, key, value);
                self.vars = Some(vars);
            },
        }
    }

    /// The task of this name.
    pub fn get_task(&self, key: &str) -> (r: Result<&TaskConfig, DigError>)
        ensures
            ({
                let i = task_index(self.tasks@, key@, self.tasks@.len() as int);
                match r {
                    Ok(t) => 0 <= i < self.tasks@.len() && *t == self.tasks@[i].1,
                    Err(e) => i == -1 && e@ == Failure::UnknownTask(key@),
                }
            }),
    {
        let name = key.to_owned();
        let mut n: usize = self.tasks.len();
        while n > 0
            invariant
                n <= self.tasks.len(),
                name@ == key@,
                task_index(self.tasks@, key@, self.tasks@.len() as int) == task_index(
                    self.tasks@,
                    key@,
                    n as int,
                ),
            decreases n,
        {
            if self.tasks[n - 1].0 == name {
                return Ok(&self.tasks[n - 1].1);
            }
            n -= 1;
        }
        Err(DigError::UnknownTask(name))
    }

    /// The variables of a run: the global raw variables evaluated over the
    /// given ones, whose local frame they are copied onto.
    pub fn globals(&self, vars: VariableSet, answers: &Vec<Answer>, cursor: &mut usize) -> (r: Result<
        VariableSet,
        Pause,
    >)
        ensures
            ({
                let start = Context {
                    forcing: ForcingContext::NotForced,
                    env: None,
                    dir: None,
                    silent: false,
                };
                match self.vars {
                    None => r is Ok && r->Ok_0@ == vars@ && *final(cursor) == *old(cursor),
                    Some(raw) => {
                        let model = stacked_raw(
                            raw_entries(raw),
                            raw_entries(raw).len() as int,
                            vars@.stack(true),
                            true,
                            start,
                            replies(answers@),
                            *old(cursor) as int,
                        );
                        match r {
                            Ok(v) => model == (Ok::<Vars, Halt>(v@), *final(cursor) as int),
                            Err(p) => model.0 == Err::<Vars, Halt>(p@),
                        }
                    },
                }
            }),
    {
        match &self.vars {
            None => Ok(vars),
            Some(raw_vars) => {
                let context = RunContext::default();
                vars.stack_raw_variables(raw_vars, StackMode::CopyLocals, &context, answers, cursor)
            },
        }
    }
}

} // verus!
