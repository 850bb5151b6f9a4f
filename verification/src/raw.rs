//! Raw variables: definitions that are evaluated, in order, when an
//! environment is stacked.

use vstd::prelude::*;
use crate::effect::replies;
use crate::effect::Answer;
use crate::effect::Halt;
use crate::effect::Pause;
use crate::effect::Reply;
use crate::error::DigError;
use crate::error::Failure;
use crate::run_context::Context;
use crate::run_context::RunContext;
use crate::step::basic_step::basic_outcome;
use crate::step::common::process_of;
use crate::step::common::CommandConfig;
use crate::step::common::Outcome;
use crate::step::common::StepEvaluationResult;
use crate::token::evaluate_tokens_to_string;
use crate::token::expand_to_string;
use crate::token::expand_value;
use crate::value::json_parse;
use crate::value::parsed_or_text;
use crate::value::Json;
use crate::value::JsonValue;
use crate::vars::frame_get;
use crate::vars::StackMode;
use crate::vars::VariableSet;
use crate::vars::Vars;

verus! {

/// The definition of a variable: a JSON value with tokens in it, or a
/// command whose output is the value.
#[derive(Debug, PartialEq)]
pub enum RawVariable {
    Executable(CommandConfig),
    Json(JsonValue),
}

#[verifier::external_type_specification]
#[verifier::external_body]
#[verifier::reject_recursive_types(K)]
#[verifier::reject_recursive_types(V)]
#[verifier::reject_recursive_types(S)]
pub struct ExIndexMap<K, V, S>(indexmap::IndexMap<K, V, S>);

/// Raw variables by key, in insertion order.
pub type RawVariableMap = indexmap::IndexMap<String, RawVariable>;

/// The entries of a map of raw variables, in insertion order.
pub uninterp spec fn raw_entries(map: RawVariableMap) -> Seq<(String, RawVariable)>;

/// Index of the first entry with this key at or after `from`; the number of
/// entries if there is none.
pub open spec fn raw_index(entries: Seq<(String, RawVariable)>, key: Seq<char>, from: int) -> int
    decreases entries.len() - from,
{
    if 0 <= from < entries.len() && entries[from].0@ != key {
        raw_index(entries, key, from + 1)
    } else {
        from
    }
}

/// The entries after an insertion: the value of an entry with an equal key
/// is replaced, the entry keeping its key and its place; otherwise the new
/// entry comes last.
pub open spec fn raw_inserted(entries: Seq<(String, RawVariable)>, key: String, value: RawVariable) -> Seq<
    (String, RawVariable),
> {
    let i = raw_index(entries, key@, 0);
    if 0 <= i < entries.len() {
        entries.update(i, (entries[i].0, value))
    } else {
        entries.push((key, value))
    }
}

/// `IndexMap::new`: the map without entries.
#[verifier::external_body]
pub(crate) fn raw_new() -> (r: RawVariableMap)
    ensures
        raw_entries(r).len() == 0,
{
    indexmap::IndexMap::new()
}

/// `IndexMap::len`: the number of entries.
#[verifier::external_body]
pub(crate) fn raw_len(map: &RawVariableMap) -> (r: usize)
    ensures
        r == raw_entries(*map).len(),
{
    map.len()
}

/// `IndexMap::get_index`: the entry at a position of the insertion order.
#[verifier::external_body]
pub(crate) fn raw_entry(map: &RawVariableMap, i: usize) -> (r: (&String, &RawVariable))
    requires
        i < raw_entries(*map).len(),
    ensures
        *r.0 == raw_entries(*map)[i as int].0,
        *r.1 == raw_entries(*map)[i as int].1,
{
    map.get_index(i).unwrap()
}

/// `IndexMap::insert`: replaces the value under an equal key, where the
/// map holds one, and else adds the pair as its last entry.
#[verifier::external_body]
pub(crate) fn raw_insert(map: &mut RawVariableMap, key: String, value: RawVariable)
    ensures
        raw_entries(*final(map)) == raw_inserted(raw_entries(*old(map)), key, value),
{
    map.insert(key, value);
}

/// The value of a raw variable, with the index of the next answer: a JSON
/// value is expanded; a command is evaluated and its output parsed as JSON
/// when possible, else taken as a string.
pub open spec fn raw_value(
    raw: RawVariable,
    vars: Vars,
    ctx: Context,
    answers: Seq<Reply>,
    at: int,
) -> (Result<Json, Halt>, int) {
    match raw {
        RawVariable::Json(j) => match expand_value(j@, vars) {
            Ok(v) => (Ok(v), at),
            Err(e) => (Err(Halt::Fail(e)), at),
        },
        RawVariable::Executable(c) => match basic_outcome(process_of(c), vars, ctx, answers, at) {
            (Err(h), n) => (Err(h), n),
            (Ok(Outcome::Completed(s)), n) => (Ok(parsed_or_text(json_parse(s), s)), n),
            (Ok(_), n) => (Err(Halt::Fail(Failure::NoOutput)), n),
        },
    }
}

/// The environment after one raw entry is evaluated into the local frame,
/// with the index of the next answer. An entry whose key the newest parent
/// frame binds is not evaluated: with an empty local frame it inherits the
/// parent's value, with a copied one it is there already. Any other entry
/// has its key expanded and its value evaluated.
pub open spec fn entry_stacked(
    cur: Vars,
    key: Seq<char>,
    raw: RawVariable,
    copy_locals: bool,
    ctx: Context,
    answers: Seq<Reply>,
    at: int,
) -> (Result<Vars, Halt>, int) {
    let inherited = if cur.parents.len() > 0 {
        frame_get(cur.parents.last(), key)
    } else {
        None
    };
    match inherited {
        Some(v) => if copy_locals {
            (Ok(cur), at)
        } else {
            (Ok(cur.insert(key, v)), at)
        },
        None => match expand_to_string(key, "variable key"@, cur) {
            Err(e) => (Err(Halt::Fail(e)), at),
            Ok(name) => match raw_value(raw, cur, ctx, answers, at) {
                (Err(h), next) => (Err(h), next),
                (Ok(v), next) => (Ok(cur.insert(name, v)), next),
            },
        },
    }
}

/// The environment after the first `n` raw entries are evaluated into the
/// local frame of `base`, in order, with the index of the next answer:
/// each entry is evaluated in the environment that the entries before it
/// have built. The first error or missing answer ends it.
pub open spec fn stacked_raw(
    entries: Seq<(String, RawVariable)>,
    n: int,
    base: Vars,
    copy_locals: bool,
    ctx: Context,
    answers: Seq<Reply>,
    at: int,
) -> (Result<Vars, Halt>, int)
    decreases n,
{
    if n <= 0 || n > entries.len() {
        (Ok(base), at)
    } else {
        match stacked_raw(entries, n - 1, base, copy_locals, ctx, answers, at) {
            (Err(h), k) => (Err(h), k),
            (Ok(cur), k) => entry_stacked(
                cur,
                entries[n - 1].0@,
                entries[n - 1].1,
                copy_locals,
                ctx,
                answers,
                k,
            ),
        }
    }
}

/// An error among the first `k` entries is the error of all of them.
pub proof fn lemma_stacked_error(
    entries: Seq<(String, RawVariable)>,
    k: int,
    n: int,
    base: Vars,
    copy_locals: bool,
    ctx: Context,
    answers: Seq<Reply>,
    at: int,
)
    requires
        0 <= k <= n <= entries.len(),
        stacked_raw(entries, k, base, copy_locals, ctx, answers, at).0 is Err,
    ensures
        stacked_raw(entries, n, base, copy_locals, ctx, answers, at).0 == stacked_raw(
            entries,
            k,
            base,
            copy_locals,
            ctx,
            answers,
            at,
        ).0,
    decreases n - k,
{
    if k < n {
        lemma_stacked_error(entries, k, n - 1, base, copy_locals, ctx, answers, at);
    }
}

/// What the first entries of a raw map come to does not depend on the
/// entries after them: two maps that agree on their first `n` entries give
/// the same environment for these.
pub proof fn lemma_stacked_prefix(
    a: Seq<(String, RawVariable)>,
    b: Seq<(String, RawVariable)>,
    n: int,
    base: Vars,
    copy_locals: bool,
    ctx: Context,
    answers: Seq<Reply>,
    at: int,
)
    requires
        0 <= n <= a.len(),
        n <= b.len(),
        forall|i: int| 0 <= i < n ==> a[i] == b[i],
    ensures
        stacked_raw(a, n, base, copy_locals, ctx, answers, at) == stacked_raw(
            b,
            n,
            base,
            copy_locals,
            ctx,
            answers,
            at,
        ),
    decreases n,
{
    if n > 0 {
        lemma_stacked_prefix(a, b, n - 1, base, copy_locals, ctx, answers, at);
    }
}

impl RawVariable {
    /// The value of the raw variable in an environment.
    pub fn evaluate(
        &self,
        vars: &VariableSet,
        context: &RunContext,
        answers: &Vec<Answer>,
        cursor: &mut usize,
    ) -> (r: Result<JsonValue, Pause>)
        ensures
            ({
                let model = raw_value(
                    *self,
                    vars@,
                    context@,
                    replies(answers@),
                    *old(cursor) as int,
                );
                match r {
                    Ok(v) => model.0 == Ok::<Json, Halt>(v@) && *final(cursor) == model.1,
                    Err(p) => model.0 == Err::<Json, Halt>(p@),
                }
            }),
    {
        match self {
            RawVariable::Json(json_value) => match json_value.evaluate_tokens(vars) {
                Ok(v) => Ok(v),
                Err(e) => Err(Pause::Fail(e)),
            },
            RawVariable::Executable(command) => match command.evaluate(
                vars,
                context,
                answers,
                cursor,
            ) {
                Err(p) => Err(p),
                Ok(StepEvaluationResult::Completed(text)) => Ok(JsonValue::from_output(text)),
                Ok(_) => Err(Pause::Fail(DigError::NoOutput)),
            },
        }
    }
}

/// Evaluates one raw entry into the local frame of `vars`.
fn stack_entry(
    vars: &mut VariableSet,
    keytoken: &String,
    rawvalue: &RawVariable,
    stack_mode: StackMode,
    context: &RunContext,
    answers: &Vec<Answer>,
    cursor: &mut usize,
) -> (r: Result<(), Pause>)
    ensures
        ({
            let model = entry_stacked(
                old(vars)@,
                keytoken@,
                *rawvalue,
                stack_mode == StackMode::CopyLocals,
                context@,
                replies(answers@),
                *old(cursor) as int,
            );
            match r {
                Ok(()) => model == (Ok::<Vars, Halt>(final(vars)@), *final(cursor) as int),
                Err(p) => model.0 == Err::<Vars, Halt>(p@),
            }
        }),
{
    let inherited = match vars.get_from_parent(keytoken.as_str()) {
        Some(value) => Some(value.clone()),
        None => None,
    };
    match inherited {
        Some(value) => match stack_mode {
            StackMode::EmptyLocals => {
                vars.insert(keytoken.clone(), value);
            },
            StackMode::CopyLocals => {},
        },
        None => {
            let key = match evaluate_tokens_to_string(keytoken.as_str(), "variable key", vars) {
                Ok(k) => k,
                Err(e) => {
                    return Err(Pause::Fail(e));
                },
            };
            let value = match rawvalue.evaluate(vars, context, answers, cursor) {
                Ok(v) => v,
                Err(p) => {
                    return Err(p);
                },
            };
            vars.insert(key, value);
        },
    }
    Ok(())
}

impl VariableSet {
    /// A new environment on top of this one, with the raw variables
    /// evaluated into its local frame in insertion order.
    pub fn stack_raw_variables(
        &self,
        raw_vars: &RawVariableMap,
        stack_mode: StackMode,
        context: &RunContext,
        answers: &Vec<Answer>,
        cursor: &mut usize,
    ) -> (r: Result<VariableSet, Pause>)
        ensures
            ({
                let entries = raw_entries(*raw_vars);
                let model = stacked_raw(
                    entries,
                    entries.len() as int,
                    self@.stack(stack_mode == StackMode::CopyLocals),
                    stack_mode == StackMode::CopyLocals,
                    context@,
                    replies(answers@),
                    *old(cursor) as int,
                );
                match r {
                    Ok(v) => model.0 == Ok::<Vars, Halt>(v@) && *final(cursor) == model.1,
                    Err(p) => model.0 == Err::<Vars, Halt>(p@),
                }
            }),
    {
        let mut output_vars = self.stack(stack_mode);
        let ghost entries = raw_entries(*raw_vars);
        let ghost base = output_vars@;
        let ghost copy_locals = stack_mode == StackMode::CopyLocals;
        let ghost start = *cursor as int;
        let n = raw_len(raw_vars);
        let mut i: usize = 0;
        while i < n
            invariant
                i <= n,
                n == entries.len(),
                entries == raw_entries(*raw_vars),
                copy_locals == (stack_mode == StackMode::CopyLocals),
                start == *old(cursor),
                base == self@.stack(copy_locals),
                stacked_raw(
                    entries,
                    i as int,
                    base,
                    copy_locals,
                    context@,
                    replies(answers@),
                    start,
                ) == (Ok::<Vars, Halt>(output_vars@), *cursor as int),
            decreases n - i,
        {
            proof {
                if stacked_raw(
                    entries,
                    i + 1,
                    base,
                    copy_locals,
                    context@,
                    replies(answers@),
                    start,
                ).0 is Err {
                    lemma_stacked_error(
                        entries,
                        i + 1,
                        n as int,
                        base,
                        copy_locals,
                        context@,
                        replies(answers@),
                        start,
                    );
                }
            }
            let (keytoken, rawvalue) = raw_entry(raw_vars, i);
            match stack_entry(&mut output_vars, keytoken, rawvalue, stack_mode, context, answers, cursor) {
                Ok(()) => {},
                Err(p) => {
                    return Err(p);
                },
            }
            i += 1;
        }
        Ok(output_vars)
    }
}

} // verus!
