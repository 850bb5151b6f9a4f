//! The settings under which a task or step runs, and how a child inherits them.

use vstd::prelude::*;
use crate::effect::next_answer;
use crate::effect::replies;
use crate::effect::reply_at;
use crate::effect::Answer;
use crate::effect::Halt;
use crate::effect::Pause;
use crate::effect::Query;
use crate::effect::Reply;
use crate::effect::Request;
use crate::error::DigError;
use crate::error::Failure;
use crate::token::evaluate_tokens_to_string;
use crate::token::expand_to_string;
use crate::vars::frame_insert;
use crate::vars::key_index;
use crate::vars::VariableSet;
use crate::vars::Vars;

verus! {

/// Mathematical model of an [`EnvMap`]: names with their values, in order.
pub type Pairs = Seq<(Seq<char>, Seq<char>)>;

/// The model of a list of pairs of strings.
pub open spec fn pairs_view(entries: Seq<(String, String)>) -> Pairs {
    Seq::new(entries.len(), |i: int| (entries[i].0@, entries[i].1@))
}

/// Names of environment variables with their values, in insertion order.
#[derive(Debug, PartialEq)]
pub struct EnvMap {
    pub entries: Vec<(String, String)>,
}

impl View for EnvMap {
    type V = Pairs;

    open spec fn view(&self) -> Pairs {
        pairs_view(self.entries@)
    }
}

impl EnvMap {
    pub fn new() -> (r: EnvMap)
        ensures
            r@ == Seq::<(Seq<char>, Seq<char>)>::empty(),
    {
        let r = EnvMap { entries: Vec::new() };
        assert(r@ =~= Seq::<(Seq<char>, Seq<char>)>::empty());
        r
    }

    pub fn len(&self) -> (r: usize)
        ensures
            r == self@.len(),
    {
        self.entries.len()
    }

    /// Binds `key` to `value`: overwrites an entry with this name, else adds one.
    pub fn insert(&mut self, key: String, value: String)
        ensures
            final(self)@ == frame_insert(old(self)@, key@, value@),
    {
        let mut i: usize = 0;
        while i < self.entries.len() && self.entries[i].0 != key
            invariant
                i <= self.entries.len(),
                key_index(self@, key@, 0) == key_index(self@, key@, i as int),
            decreases self.entries.len() - i,
        {
            i += 1;
        }
        if i < self.entries.len() {
            self.entries[i] = (key, value);
        } else {
            self.entries.push((key, value));
        }
        assert(self@ =~= frame_insert(old(self)@, key@, value@));
    }
}

impl Clone for EnvMap {
    fn clone(&self) -> (r: EnvMap)
        ensures
            r@ == self@,
    {
        let mut out: Vec<(String, String)> = Vec::new();
        let mut i: usize = 0;
        while i < self.entries.len()
            invariant
                i <= self.entries.len(),
                out.len() == i,
                forall|j: int|
                    0 <= j < i ==> out[j].0@ == self.entries[j].0@ && out[j].1@
                        == self.entries[j].1@,
            decreases self.entries.len() - i,
        {
            out.push((self.entries[i].0.clone(), self.entries[i].1.clone()));
            i += 1;
        }
        let r = EnvMap { entries: out };
        assert(r@ =~= self@);
        r
    }
}

pub type EnvConfig = Option<EnvMap>;

pub type DirConfig = Option<String>;

/// How far forcing reaches at one point of the task tree.
#[derive(Debug, Clone, Copy, PartialEq, Eq)]
pub enum ForcingContext {
    NotForced,
    ParentIsForced,
    ExplicitlyForced,
    ForcedAsMainTask,
    EverythingForced,
}

/// What a task makes of the forcing it inherits.
#[derive(Debug, Clone, Copy, PartialEq, Eq)]
pub enum ForcingBehaviour {
    Never,
    Always,
    Inherit,
}

/// Whether a task under this forcing runs even where it could be skipped.
pub open spec fn forced(forcing: ForcingContext) -> bool {
    forcing is EverythingForced || forcing is ForcedAsMainTask || forcing is ExplicitlyForced
}

/// The forcing of a child with the given behaviour under a parent's forcing.
pub open spec fn child_forcing(parent: ForcingContext, child: ForcingBehaviour) -> ForcingContext {
    match parent {
        ForcingContext::EverythingForced => ForcingContext::EverythingForced,
        ForcingContext::ForcedAsMainTask => ForcingContext::ExplicitlyForced,
        ForcingContext::ExplicitlyForced => match child {
            ForcingBehaviour::Never => ForcingContext::NotForced,
            _ => ForcingContext::ExplicitlyForced,
        },
        ForcingContext::ParentIsForced => match child {
            ForcingBehaviour::Always => ForcingContext::ExplicitlyForced,
            ForcingBehaviour::Inherit => ForcingContext::ParentIsForced,
            ForcingBehaviour::Never => ForcingContext::NotForced,
        },
        ForcingContext::NotForced => match child {
            ForcingBehaviour::Always => ForcingContext::ExplicitlyForced,
            _ => ForcingContext::NotForced,
        },
    }
}

/// The forcing at the end of a line of descent: each behaviour in turn
/// is that of the next child.
pub open spec fn descendant_forcing(start: ForcingContext, line: Seq<ForcingBehaviour>) -> ForcingContext
    decreases line.len(),
{
    if line.len() == 0 {
        start
    } else {
        child_forcing(descendant_forcing(start, line.drop_last()), line.last())
    }
}

/// Forcing is handed down: under a forced context, a child that always
/// forces or inherits is forced too.
pub proof fn lemma_forcing_handed_down(parent: ForcingContext, child: ForcingBehaviour)
    requires
        forced(parent),
        child is Always || child is Inherit,
    ensures
        forced(child_forcing(parent, child)),
{
}

/// Once a context is forced, every descendant reached through tasks that
/// always force or inherit is forced.
pub proof fn lemma_forcing_monotone(start: ForcingContext, line: Seq<ForcingBehaviour>)
    requires
        forced(start),
        forall|i: int| 0 <= i < line.len() ==> line[i] is Always || line[i] is Inherit,
    ensures
        forced(descendant_forcing(start, line)),
    decreases line.len(),
{
    if line.len() > 0 {
        lemma_forcing_monotone(start, line.drop_last());
        lemma_forcing_handed_down(descendant_forcing(start, line.drop_last()), line.last());
    }
}

/// Mathematical model of a [`RunContext`].
pub struct Context {
    pub forcing: ForcingContext,
    pub env: Option<Pairs>,
    pub dir: Option<Seq<char>>,
    pub silent: bool,
}

/// The settings of one evaluation.
#[derive(Debug, PartialEq)]
pub struct RunContext {
    pub forcing: ForcingContext,
    pub env: EnvConfig,
    pub dir: DirConfig,
    pub silent: bool,
}

impl View for RunContext {
    type V = Context;

    open spec fn view(&self) -> Context {
        Context {
            forcing: self.forcing,
            env: match self.env {
                Some(e) => Some(e@),
                None => None,
            },
            dir: match self.dir {
                Some(d) => Some(d@),
                None => None,
            },
            silent: self.silent,
        }
    }
}

impl Clone for RunContext {
    fn clone(&self) -> (r: RunContext)
        ensures
            r@ == self@,
    {
        RunContext {
            forcing: self.forcing,
            env: match &self.env {
                Some(e) => Some(e.clone()),
                None => None,
            },
            dir: match &self.dir {
                Some(d) => Some(d.clone()),
                None => None,
            },
            silent: self.silent,
        }
    }
}

/// The first `n` entries of an overlay, names and values expanded, bound in
/// order; the error of the first entry that has one (its name comes first).
pub open spec fn expand_pairs(env: Pairs, n: int, vars: Vars) -> Result<Pairs, Failure>
    decreases n,
{
    if n <= 0 || n > env.len() {
        Ok(Seq::empty())
    } else {
        match expand_pairs(env, n - 1, vars) {
            Err(e) => Err(e),
            Ok(done) => match expand_to_string(env[n - 1].0, "env-key"@, vars) {
                Err(e) => Err(e),
                Ok(k) => match expand_to_string(env[n - 1].1, "env-value"@, vars) {
                    Err(e) => Err(e),
                    Ok(v) => Ok(frame_insert(done, k, v)),
                },
            },
        }
    }
}

/// `base` with the first `n` entries of `add` bound over it, in order.
pub open spec fn overlay(base: Pairs, add: Pairs, n: int) -> Pairs
    decreases n,
{
    if n <= 0 || n > add.len() {
        base
    } else {
        frame_insert(overlay(base, add, n - 1), add[n - 1].0, add[n - 1].1)
    }
}

/// The overlay of a context after an expanded overlay is merged into it:
/// without one nothing changes; over none it is the new one; else the new
/// entries shadow the old.
pub open spec fn merged_env(old_env: Option<Pairs>, add: Option<Pairs>) -> Option<Pairs> {
    match add {
        None => old_env,
        Some(a) => match old_env {
            None => Some(a),
            Some(b) => Some(overlay(b, a, a.len() as int)),
        },
    }
}

/// What an overlay expands to, if there is one.
pub open spec fn expanded_env(env: Option<Pairs>, vars: Vars) -> Result<Option<Pairs>, Failure> {
    match env {
        None => Ok(None),
        Some(e) => match expand_pairs(e, e.len() as int, vars) {
            Ok(p) => Ok(Some(p)),
            Err(x) => Err(x),
        },
    }
}

/// The working directory after `dir` is applied: the expanded path, which
/// must be an existing directory by the answer at `at`. With it comes the
/// index of the next answer.
pub open spec fn resolved_dir(
    old_dir: Option<Seq<char>>,
    dir: Option<Seq<char>>,
    vars: Vars,
    answers: Seq<Reply>,
    at: int,
) -> (Result<Option<Seq<char>>, Halt>, int) {
    match dir {
        None => (Ok(old_dir), at),
        Some(d) => match expand_to_string(d, "dir"@, vars) {
            Err(e) => (Err(Halt::Fail(e)), at),
            Ok(path) => match reply_at(answers, at, Query::DirExists(path)) {
                Err(h) => (Err(h), at),
                Ok(Reply::Flag(true)) => (Ok(Some(path)), at + 1),
                Ok(Reply::Flag(false)) => (Err(Halt::Fail(Failure::InvalidDirectory(path))), at + 1),
                Ok(_) => (Err(Halt::Fail(Failure::UnexpectedAnswer)), at + 1),
            },
        },
    }
}

/// A context after an update: the overlay is expanded and merged, then the
/// directory is resolved, then `silent` is or-ed in. The first error or
/// missing answer ends it.
pub open spec fn updated(
    ctx: Context,
    env: Option<Pairs>,
    dir: Option<Seq<char>>,
    silent: bool,
    vars: Vars,
    answers: Seq<Reply>,
    at: int,
) -> (Result<Context, Halt>, int) {
    match expanded_env(env, vars) {
        Err(e) => (Err(Halt::Fail(e)), at),
        Ok(add) => match resolved_dir(ctx.dir, dir, vars, answers, at) {
            (Err(h), next) => (Err(h), next),
            (Ok(d), next) => (
                Ok(
                    Context {
                        forcing: ctx.forcing,
                        env: merged_env(ctx.env, add),
                        dir: d,
                        silent: ctx.silent || silent,
                    },
                ),
                next,
            ),
        },
    }
}

/// An error among the first `k` entries is the error of all of them.
pub proof fn lemma_pairs_error(env: Pairs, k: int, n: int, vars: Vars)
    requires
        0 <= k <= n <= env.len(),
        expand_pairs(env, k, vars) is Err,
    ensures
        expand_pairs(env, n, vars) == expand_pairs(env, k, vars),
    decreases n - k,
{
    if k < n {
        lemma_pairs_error(env, k, n - 1, vars);
    }
}

/// Expands the names and values of an overlay.
pub fn expand_env(env: &EnvMap, vars: &VariableSet) -> (r: Result<EnvMap, DigError>)
    ensures
        match r {
            Ok(m) => expand_pairs(env@, env@.len() as int, vars@) == Ok::<Pairs, Failure>(m@),
            Err(e) => expand_pairs(env@, env@.len() as int, vars@) == Err::<Pairs, Failure>(e@),
        },
{
    let mut out = EnvMap::new();
    let mut i: usize = 0;
    while i < env.entries.len()
        invariant
            i <= env.entries.len(),
            expand_pairs(env@, i as int, vars@) == Ok::<Pairs, Failure>(out@),
        decreases env.entries.len() - i,
    {
        proof {
            if expand_pairs(env@, i + 1, vars@) is Err {
                lemma_pairs_error(env@, i + 1, env@.len() as int, vars@);
            }
        }
        let key = match evaluate_tokens_to_string(env.entries[i].0.as_str(), "env-key", vars) {
            Ok(k) => k,
            Err(e) => {
                return Err(e);
            },
        };
        let val = match evaluate_tokens_to_string(env.entries[i].1.as_str(), "env-value", vars) {
            Ok(v) => v,
            Err(e) => {
                return Err(e);
            },
        };
        out.insert(key, val);
        i += 1;
    }
    Ok(out)
}

impl RunContext {
    /// The context of a run that nothing has shaped yet.
    pub fn default() -> (r: RunContext)
        ensures
            r@ == (Context { forcing: ForcingContext::NotForced, env: None, dir: None, silent: false }),
    {
        RunContext { forcing: ForcingContext::NotForced, env: None, dir: None, silent: false }
    }

    /// The context of the main task: the given forcing, then the directory
    /// and the overlay of the configuration.
    pub fn new(
        forcing: &ForcingContext,
        env: Option<&EnvMap>,
        dir: Option<&String>,
        vars: &VariableSet,
        answers: &Vec<Answer>,
        cursor: &mut usize,
    ) -> (r: Result<RunContext, Pause>)
        ensures
            ({
                let start = Context { forcing: *forcing, env: None, dir: None, silent: false };
                let model = resolved_dir(
                    None,
                    option_text(dir),
                    vars@,
                    replies(answers@),
                    *old(cursor) as int,
                );
                match r {
                    Ok(c) => model.0 is Ok && expanded_env(option_pairs(env), vars@) is Ok && c@ == (
                    Context {
                        forcing: *forcing,
                        env: expanded_env(option_pairs(env), vars@)->Ok_0,
                        dir: model.0->Ok_0,
                        silent: false,
                    }) && *final(cursor) == model.1,
                    Err(p) => match model.0 {
                        Err(h) => p@ == h,
                        Ok(_) => expanded_env(option_pairs(env), vars@) is Err && p@ == Halt::Fail(
                            expanded_env(option_pairs(env), vars@)->Err_0,
                        ),
                    },
                }
            }),
    {
        let mut context = RunContext::default();
        context.forcing = *forcing;
        match context.update_dir(dir, vars, answers, cursor) {
            Ok(()) => {},
            Err(p) => {
                return Err(p);
            },
        }
        match context.update_env(env, vars) {
            Ok(()) => {},
            Err(e) => {
                return Err(Pause::Fail(e));
            },
        }
        Ok(context)
    }

    /// The context of a child task with the given behaviour: the forcing
    /// moves on; overlay, directory and silence are inherited.
    pub fn child_context(&self, child_behavior: ForcingBehaviour) -> (r: RunContext)
        ensures
            r@ == (Context { forcing: child_forcing(self@.forcing, child_behavior), ..self@ }),
    {
        let forcing = match self.forcing {
            ForcingContext::EverythingForced => ForcingContext::EverythingForced,
            ForcingContext::ForcedAsMainTask => ForcingContext::ExplicitlyForced,
            ForcingContext::ExplicitlyForced => match child_behavior {
                ForcingBehaviour::Always => ForcingContext::ExplicitlyForced,
                ForcingBehaviour::Inherit => ForcingContext::ExplicitlyForced,
                ForcingBehaviour::Never => ForcingContext::NotForced,
            },
            ForcingContext::ParentIsForced => match child_behavior {
                ForcingBehaviour::Always => ForcingContext::ExplicitlyForced,
                ForcingBehaviour::Inherit => ForcingContext::ParentIsForced,
                ForcingBehaviour::Never => ForcingContext::NotForced,
            },
            ForcingContext::NotForced => match child_behavior {
                ForcingBehaviour::Always => ForcingContext::ExplicitlyForced,
                ForcingBehaviour::Inherit => ForcingContext::NotForced,
                ForcingBehaviour::Never => ForcingContext::NotForced,
            },
        };
        let copy = self.clone();
        RunContext { forcing, env: copy.env, dir: copy.dir, silent: copy.silent }
    }

    /// Whether a task in this context runs even where it could be skipped.
    pub fn is_forced(&self) -> (r: bool)
        ensures
            r == forced(self@.forcing),
    {
        match self.forcing {
            ForcingContext::EverythingForced => true,
            ForcingContext::ForcedAsMainTask => true,
            ForcingContext::ExplicitlyForced => true,
            ForcingContext::ParentIsForced => false,
            ForcingContext::NotForced => false,
        }
    }

    /// Applies the overlays of a task or step: the expanded `env` is merged
    /// in, `dir` is expanded and must be an existing directory, `silent` is
    /// or-ed in. On an error or a pause the context is as before.
    pub fn update(
        &mut self,
        env: Option<&EnvMap>,
        dir: Option<&String>,
        silent: bool,
        vars: &VariableSet,
        answers: &Vec<Answer>,
        cursor: &mut usize,
    ) -> (r: Result<(), Pause>)
        ensures
            ({
                let model = updated(
                    old(self)@,
                    option_pairs(env),
                    option_text(dir),
                    silent,
                    vars@,
                    replies(answers@),
                    *old(cursor) as int,
                );
                match r {
                    Ok(()) => model.0 == Ok::<Context, Halt>(final(self)@) && *final(cursor)
                        == model.1,
                    Err(p) => model.0 == Err::<Context, Halt>(p@) && final(self)@ == old(self)@,
                }
            }),
    {
        let mut next = self.clone();
        match next.update_env(env, vars) {
            Ok(()) => {},
            Err(e) => {
                return Err(Pause::Fail(e));
            },
        }
        match next.update_dir(dir, vars, answers, cursor) {
            Ok(()) => {},
            Err(p) => {
                return Err(p);
            },
        }
        next.silent = next.silent || silent;
        *self = next;
        Ok(())
    }

    /// Expands an overlay and merges it into the context's own.
    pub fn update_env(&mut self, env: Option<&EnvMap>, vars: &VariableSet) -> (r: Result<
        (),
        DigError,
    >)
        ensures
            match r {
                Ok(()) => expanded_env(option_pairs(env), vars@) is Ok && final(self)@ == (Context {
                    env: merged_env(old(self)@.env, expanded_env(option_pairs(env), vars@)->Ok_0),
                    ..old(self)@
                }),
                Err(e) => expanded_env(option_pairs(env), vars@) == Err::<Option<Pairs>, Failure>(
                    e@,
                ) && final(self)@ == old(self)@,
            },
    {
        let add = match env {
            None => {
                return Ok(());
            },
            Some(envmap) => match expand_env(envmap, vars) {
                Ok(m) => m,
                Err(e) => {
                    return Err(e);
                },
            },
        };
        match &mut self.env {
            None => {
                self.env = Some(add);
            },
            Some(own) => {
                let mut i: usize = 0;
                while i < add.entries.len()
                    invariant
                        i <= add.entries.len(),
                        own@ == overlay(old(self)@.env->0, add@, i as int),
                    decreases add.entries.len() - i,
                {
                    own.insert(add.entries[i].0.clone(), add.entries[i].1.clone());
                    i += 1;
                }
            },
        }
        Ok(())
    }

    /// Expands a directory, asks whether it exists, and makes it the
    /// context's working directory.
    pub fn update_dir(
        &mut self,
        dir: Option<&String>,
        vars: &VariableSet,
        answers: &Vec<Answer>,
        cursor: &mut usize,
    ) -> (r: Result<(), Pause>)
        ensures
            ({
                let model = resolved_dir(
                    old(self)@.dir,
                    option_text(dir),
                    vars@,
                    replies(answers@),
                    *old(cursor) as int,
                );
                match r {
                    Ok(()) => model.0 is Ok && final(self)@ == (Context {
                        dir: model.0->Ok_0,
                        ..old(self)@
                    }) && *final(cursor) == model.1,
                    Err(p) => model.0 == Err::<Option<Seq<char>>, Halt>(p@) && final(self)@ == old(
                        self,
                    )@,
                }
            }),
    {
        match dir {
            None => Ok(()),
            Some(specified) => {
                let path = match evaluate_tokens_to_string(specified.as_str(), "dir", vars) {
                    Ok(p) => p,
                    Err(e) => {
                        return Err(Pause::Fail(e));
                    },
                };
                match next_answer(answers, cursor, Request::DirExists(path.clone())) {
                    Err(p) => Err(p),
                    Ok(Answer::Flag(true)) => {
                        self.dir = Some(path);
                        Ok(())
                    },
                    Ok(Answer::Flag(false)) => Err(Pause::Fail(DigError::InvalidDirectory(path))),
                    Ok(_) => Err(Pause::Fail(DigError::UnexpectedAnswer)),
                }
            },
        }
    }
}

/// The model of an overlay that may be absent.
pub open spec fn option_pairs(env: Option<&EnvMap>) -> Option<Pairs> {
    match env {
        Some(e) => Some(e@),
        None => None,
    }
}

/// The model of a text that may be absent.
pub open spec fn option_text(text: Option<&String>) -> Option<Seq<char>> {
    match text {
        Some(t) => Some(t@),
        None => None,
    }
}

} // verus!
