//! What the command line asks for, once its arguments are read.

use vstd::prelude::*;
use vstd::string::StrSliceExecFns;
use crate::error::DigError;
use crate::error::Failure;
use crate::run_context::ForcingContext;
use crate::text::find_char;
use crate::text::first_index;
use crate::text::slice;
use crate::text::strings_view;
use crate::value::json_parse;
use crate::value::parsed_or_text;
use crate::value::JsonValue;
use crate::vars::frame_insert;
use crate::vars::Frame;
use crate::vars::VariableSet;

verus! {

/// The arguments of `run`.
#[derive(Debug, PartialEq)]
pub struct RunArgs {
    /// The configuration file to load.
    pub source: String,
    /// The task to run.
    pub task: String,
    /// Variables to override, each as `KEY=VALUE`.
    pub var: Vec<String>,
    /// How many processes may run at a time.
    pub processes: usize,
    /// The task itself is forced, and the subtasks that inherit.
    pub force_first: bool,
    /// All tasks are forced.
    pub force_all: bool,
}

/// The commands of the program.
#[derive(Debug, PartialEq)]
pub enum Commands {
    Run(RunArgs),
}

/// The forcing that the two flags ask for: all tasks, or the main task, or none.
pub open spec fn forcing_of(force_first: bool, force_all: bool) -> ForcingContext {
    if force_all {
        ForcingContext::EverythingForced
    } else if force_first {
        ForcingContext::ForcedAsMainTask
    } else {
        ForcingContext::NotForced
    }
}

/// The frame of the first `n` overrides, bound in order. Each is split at
/// its first `=`; the value is parsed as JSON when possible, else taken as
/// a string. One without `=` is an error.
pub open spec fn overridden(pairs: Seq<Seq<char>>, n: int) -> Result<Frame, Failure>
    decreases n,
{
    if n <= 0 || n > pairs.len() {
        Ok(Seq::empty())
    } else {
        match overridden(pairs, n - 1) {
            Err(e) => Err(e),
            Ok(done) => {
                let pair = pairs[n - 1];
                let i = first_index(pair, '=', 0);
                if i >= pair.len() {
                    Err(Failure::BadOverride(pair))
                } else {
                    let value = pair.subrange(i + 1, pair.len() as int);
                    Ok(
                        frame_insert(
                            done,
                            pair.subrange(0, i),
                            parsed_or_text(json_parse(value), value),
                        ),
                    )
                }
            },
        }
    }
}

/// An error among the first `k` overrides is the error of all of them.
pub proof fn lemma_overridden_error(pairs: Seq<Seq<char>>, k: int, n: int)
    requires
        0 <= k <= n <= pairs.len(),
        overridden(pairs, k) is Err,
    ensures
        overridden(pairs, n) == overridden(pairs, k),
    decreases n - k,
{
    if k < n {
        lemma_overridden_error(pairs, k, n - 1);
    }
}

impl RunArgs {
    /// The forcing of the main task.
    pub fn forcing(&self) -> (r: ForcingContext)
        ensures
            r == forcing_of(self.force_first, self.force_all),
    {
        if self.force_all {
            ForcingContext::EverythingForced
        } else if self.force_first {
            ForcingContext::ForcedAsMainTask
        } else {
            ForcingContext::NotForced
        }
    }

    /// The variables given on the command line, as the local frame of a
    /// new environment.
    pub fn overrides(&self) -> (r: Result<VariableSet, DigError>)
        ensures
            match r {
                Ok(v) => overridden(strings_view(self.var@), self.var@.len() as int) == Ok::<
                    Frame,
                    Failure,
                >(v@.local) && v@.parents.len() == 0,
                Err(e) => overridden(strings_view(self.var@), self.var@.len() as int) == Err::<
                    Frame,
                    Failure,
                >(e@),
            },
    {
        let mut vars = VariableSet::new();
        let ghost pairs = strings_view(self.var@);
        let mut i: usize = 0;
        while i < self.var.len()
            invariant
                i <= self.var.len(),
                pairs == strings_view(self.var@),
                overridden(pairs, i as int) == Ok::<Frame, Failure>(vars@.local),
                vars@.parents.len() == 0,
            decreases self.var.len() - i,
        {
            proof {
                if overridden(pairs, i + 1) is Err {
                    lemma_overridden_error(pairs, i + 1, pairs.len() as int);
                }
            }
            let pair = self.var[i].as_str();
            let n = pair.unicode_len();
            let at = find_char(pair, '=', 0);
            if at >= n {
                return Err(DigError::BadOverride(self.var[i].clone()));
            }
            let key = slice(pair, 0, at);
            let value = slice(pair, at + 1, n);
            vars.insert(key, JsonValue::from_output(value));
            i += 1;
        }
        Ok(vars)
    }
}

} // verus!
