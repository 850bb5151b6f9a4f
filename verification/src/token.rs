//! Token expansion: `{{name}}` stands for a variable, `/* ... */` for its
//! interior taken literally, and everything else for itself.

use vstd::prelude::*;
use vstd::string::StrSliceExecFns;
use vstd::string::StringExecFns;
use crate::error::DigError;
use crate::error::Failure;
use crate::text::run_from;
use crate::text::slice;
use crate::text::strings_view;
use crate::text::trim;
use crate::text::trimmed;
use crate::value::json_text;
use crate::value::raw_or_rendered;
use crate::value::Json;
use crate::value::JsonValue;
use crate::value::entries_view;
use crate::value::items_view;
use crate::value::lemma_array_view;
use crate::value::lemma_object_view;
use crate::vars::frame_insert;
use crate::vars::VariableMap;
use crate::vars::VariableSet;
use crate::vars::Vars;

verus! {

/// Mathematical model of a parsed element.
pub enum Element {
    /// A reference to the variable of this name.
    Token(Seq<char>),
    /// Text that stands for itself.
    Literal(Seq<char>),
}

/// One element of a parsed string.
#[derive(Debug, PartialEq)]
pub enum ParsedElement {
    /// A reference to the variable of this name.
    Token(String),
    /// Text that stands for itself.
    Literal(String),
}

impl View for ParsedElement {
    type V = Element;

    open spec fn view(&self) -> Element {
        match self {
            ParsedElement::Token(k) => Element::Token(k@),
            ParsedElement::Literal(t) => Element::Literal(t@),
        }
    }
}

/// The models of a list of parsed elements.
pub open spec fn elements_view(v: Seq<ParsedElement>) -> Seq<Element> {
    Seq::new(v.len(), |i: int| v[i]@)
}

/// Whether `c` may stand inside a token: a letter or digit of ASCII, or one
/// of `.`, space, `_`, `-`.
pub open spec fn is_token_char(c: char) -> bool {
    ('a' <= c && c <= 'z') || ('A' <= c && c <= 'Z') || ('0' <= c && c <= '9') || c == '.' || c
        == ' ' || c == '_' || c == '-'
}

/// Whether `c` ends a literal: it may begin a token or a comment.
pub open spec fn control_char(c: char) -> bool {
    c == '{' || c == '/'
}

/// The characters that may stand inside a token.
pub open spec fn token_chars() -> spec_fn(char) -> bool {
    |c: char| is_token_char(c)
}

/// The characters that do not end a literal.
pub open spec fn plain_chars() -> spec_fn(char) -> bool {
    |c: char| !control_char(c)
}

/// Whether the two characters at index `at` are `a` and `b`.
pub open spec fn pair_at(s: Seq<char>, at: int, a: char, b: char) -> bool {
    0 <= at && at + 1 < s.len() && s[at] == a && s[at + 1] == b
}

/// Index of the first `*/` at or after `from`, if any.
pub open spec fn comment_close(s: Seq<char>, from: int) -> Option<int>
    decreases s.len() - from,
{
    if from < 0 || from + 1 >= s.len() {
        None
    } else if s[from] == '*' && s[from + 1] == '/' {
        Some(from)
    } else {
        comment_close(s, from + 1)
    }
}

/// The element that begins at index `at`, and the index after it. A token
/// is tried first, then a comment; anything else is a literal of one
/// character and the plain characters after it.
pub open spec fn element_at(s: Seq<char>, at: int) -> (Element, int) {
    let body = run_from(s, at + 2, token_chars());
    if pair_at(s, at, '{', '{') && body >= 1 && pair_at(s, at + 2 + body, '}', '}') {
        (Element::Token(trim(s.subrange(at + 2, at + 2 + body))), at + 2 + body + 2)
    } else if pair_at(s, at, '/', '*') && comment_close(s, at + 2) is Some {
        let close = comment_close(s, at + 2)->0;
        (Element::Literal(s.subrange(at + 2, close)), close + 2)
    } else {
        let rest = run_from(s, at + 1, plain_chars());
        (Element::Literal(s.subrange(at, at + 1 + rest)), at + 1 + rest)
    }
}

/// The elements of `s` from index `at` on.
pub open spec fn elements_from(s: Seq<char>, at: int) -> Seq<Element>
    decreases s.len() - at,
{
    let (element, next) = element_at(s, at);
    if at < 0 || at >= s.len() || next <= at || next > s.len() {
        Seq::empty()
    } else {
        seq![element] + elements_from(s, next)
    }
}

/// The elements of `s`.
pub open spec fn elements(s: Seq<char>) -> Seq<Element> {
    elements_from(s, 0)
}

/// What an element contributes to a longer string: a literal its text, a
/// token the text of its variable (a string as it is, anything else as JSON).
pub open spec fn piece(element: Element, env: Vars) -> Result<Seq<char>, Failure> {
    match element {
        Element::Literal(t) => Ok(t),
        Element::Token(k) => match env.get(k) {
            Some(v) => Ok(raw_or_rendered(v, json_text(v))),
            None => Err(Failure::UnknownKey(k)),
        },
    }
}

/// The pieces of the elements in a row; the error of the first element that has one.
pub open spec fn concat(els: Seq<Element>, env: Vars) -> Result<Seq<char>, Failure>
    decreases els.len(),
{
    if els.len() == 0 {
        Ok(Seq::empty())
    } else {
        match concat(els.drop_last(), env) {
            Err(e) => Err(e),
            Ok(head) => match piece(els.last(), env) {
                Err(e) => Err(e),
                Ok(p) => Ok(head + p),
            },
        }
    }
}

/// What the elements of a string expand to: nothing gives null; a lone
/// token its variable's value, unchanged; a lone literal a string; several
/// elements the string of their pieces.
pub open spec fn expand_elements(els: Seq<Element>, env: Vars) -> Result<Json, Failure> {
    if els.len() == 0 {
        Ok(Json::Null)
    } else if els.len() == 1 {
        match els[0] {
            Element::Token(k) => match env.get(k) {
                Some(v) => Ok(v),
                None => Err(Failure::UnknownKey(k)),
            },
            Element::Literal(t) => Ok(Json::Str(t)),
        }
    } else {
        match concat(els, env) {
            Ok(t) => Ok(Json::Str(t)),
            Err(e) => Err(e),
        }
    }
}

/// What a string expands to in an environment.
pub open spec fn expand_text(s: Seq<char>, env: Vars) -> Result<Json, Failure> {
    expand_elements(elements(s), env)
}

/// What a string that must give a string expands to: `what` names its role
/// in the error for any other value.
pub open spec fn expand_to_string(s: Seq<char>, what: Seq<char>, env: Vars) -> Result<
    Seq<char>,
    Failure,
> {
    match expand_text(s, env) {
        Ok(Json::Str(t)) => Ok(t),
        Ok(other) => Err(Failure::NotAString(what, json_text(other))),
        Err(e) => Err(e),
    }
}

/// Whether an outcome with a value is the one that the model gives.
pub open spec fn value_outcome(r: Result<JsonValue, DigError>, model: Result<Json, Failure>) -> bool {
    match r {
        Ok(v) => model == Ok::<Json, Failure>(v@),
        Err(e) => model == Err::<Json, Failure>(e@),
    }
}

/// Whether an outcome with a string is the one that the model gives.
pub open spec fn string_outcome(
    r: Result<String, DigError>,
    model: Result<Seq<char>, Failure>,
) -> bool {
    match r {
        Ok(v) => model == Ok::<Seq<char>, Failure>(v@),
        Err(e) => model == Err::<Seq<char>, Failure>(e@),
    }
}

pub fn is_control_char(c: char) -> (r: bool)
    ensures
        r == control_char(c),
{
    c == '{' || c == '/'
}

fn token_char(c: char) -> (r: bool)
    ensures
        r == is_token_char(c),
{
    ('a' <= c && c <= 'z') || ('A' <= c && c <= 'Z') || ('0' <= c && c <= '9') || c == '.' || c
        == ' ' || c == '_' || c == '-'
}

/// The token that begins at `at`, if one does, with the index after it.
fn parse_token(input: &str, n: usize, at: usize) -> (r: Option<(ParsedElement, usize)>)
    requires
        n == input@.len(),
        at < n,
    ensures
        ({
            let s = input@;
            let body = run_from(s, at + 2, token_chars());
            let found = pair_at(s, at as int, '{', '{') && body >= 1 && pair_at(
                s,
                at + 2 + body,
                '}',
                '}',
            );
            match r {
                Some((e, next)) => found && (e@, next as int) == element_at(s, at as int) && at
                    < next <= n,
                None => !found,
            }
        }),
{
    if n - at < 2 || input.get_char(at) != '{' || input.get_char(at + 1) != '{' {
        return None;
    }
    let start = at + 2;
    let mut j: usize = start;
    while j < n && token_char(input.get_char(j))
        invariant
            n == input@.len(),
            start <= j <= n,
            run_from(input@, start as int, token_chars()) == (j - start) + run_from(
                input@,
                j as int,
                token_chars(),
            ),
        decreases n - j,
    {
        j += 1;
    }
    if j == start || n - j < 2 || input.get_char(j) != '}' || input.get_char(j + 1) != '}' {
        return None;
    }
    let body = slice(input, start, j);
    let key = trimmed(body.as_str());
    Some((ParsedElement::Token(key), j + 2))
}

/// The comment that begins at `at`, if one does, with the index after it.
fn parse_comment(input: &str, n: usize, at: usize) -> (r: Option<(ParsedElement, usize)>)
    requires
        n == input@.len(),
        at < n,
    ensures
        ({
            let s = input@;
            let found = pair_at(s, at as int, '/', '*') && comment_close(s, at + 2) is Some;
            match r {
                Some((e, next)) => found && e@ == Element::Literal(
                    s.subrange(at + 2, comment_close(s, at + 2)->0),
                ) && next == comment_close(s, at + 2)->0 + 2 && at < next <= n,
                None => !found,
            }
        }),
{
    if n - at < 2 || input.get_char(at) != '/' || input.get_char(at + 1) != '*' {
        return None;
    }
    let start = at + 2;
    let mut j: usize = start;
    while n - j >= 2 && !(input.get_char(j) == '*' && input.get_char(j + 1) == '/')
        invariant
            n == input@.len(),
            start <= j <= n,
            comment_close(input@, start as int) == comment_close(input@, j as int),
        decreases n - j,
    {
        j += 1;
    }
    if n - j < 2 {
        return None;
    }
    Some((ParsedElement::Literal(slice(input, start, j)), j + 2))
}

/// The literal that begins at `at`, with the index after it.
fn parse_literal(input: &str, n: usize, at: usize) -> (r: (ParsedElement, usize))
    requires
        n == input@.len(),
        at < n,
    ensures
        ({
            let s = input@;
            let rest = run_from(s, at + 1, plain_chars());
            r.0@ == Element::Literal(s.subrange(at as int, at + 1 + rest)) && r.1 == at + 1 + rest
                && at < r.1 <= n
        }),
{
    let start = at + 1;
    let mut j: usize = start;
    while j < n && !is_control_char(input.get_char(j))
        invariant
            n == input@.len(),
            start <= j <= n,
            run_from(input@, start as int, plain_chars()) == (j - start) + run_from(
                input@,
                j as int,
                plain_chars(),
            ),
        decreases n - j,
    {
        j += 1;
    }
    (ParsedElement::Literal(slice(input, at, j)), j)
}

/// The element that begins at `at`, with the index after it.
fn parse_element(input: &str, n: usize, at: usize) -> (r: (ParsedElement, usize))
    requires
        n == input@.len(),
        at < n,
    ensures
        (r.0@, r.1 as int) == element_at(input@, at as int),
        at < r.1 <= n,
{
    match parse_token(input, n, at) {
        Some(found) => {
            return found;
        },
        None => {},
    }
    match parse_comment(input, n, at) {
        Some(found) => {
            return found;
        },
        None => {},
    }
    parse_literal(input, n, at)
}

/// The elements of a string, in order. Every string has them: what begins
/// no token and no comment is a literal.
pub fn parse_all_elements(input: &str) -> (r: Vec<ParsedElement>)
    ensures
        elements_view(r@) == elements(input@),
{
    let n = input.unicode_len();
    let mut out: Vec<ParsedElement> = Vec::new();
    let mut at: usize = 0;
    while at < n
        invariant
            n == input@.len(),
            at <= n,
            elements(input@) == elements_view(out@) + elements_from(input@, at as int),
        decreases n - at,
    {
        let (element, next) = parse_element(input, n, at);
        let ghost before = elements_view(out@);
        out.push(element);
        assert(elements_view(out@) =~= before + seq![element@]);
        assert(elements(input@) =~= elements_view(out@) + elements_from(input@, next as int));
        at = next;
    }
    assert(elements_view(out@) =~= elements(input@));
    out
}

/// The text that an element contributes to a longer string.
fn element_text(element: &ParsedElement, vars: &VariableSet) -> (r: Result<String, DigError>)
    ensures
        string_outcome(r, piece(element@, vars@)),
{
    match element {
        ParsedElement::Literal(t) => Ok(t.clone()),
        ParsedElement::Token(k) => match vars.get(k.as_str()) {
            Ok(v) => Ok(v.to_plain_text()),
            Err(e) => Err(e),
        },
    }
}

/// Expands parsed elements in an environment.
pub fn evaluate_elements(els: &Vec<ParsedElement>, vars: &VariableSet) -> (r: Result<
    JsonValue,
    DigError,
>)
    ensures
        value_outcome(r, expand_elements(elements_view(els@), vars@)),
{
    let ghost model = elements_view(els@);
    if els.len() == 0 {
        return Ok(JsonValue::Null);
    }
    if els.len() == 1 {
        return match &els[0] {
            ParsedElement::Token(k) => match vars.get(k.as_str()) {
                Ok(v) => Ok(v.clone()),
                Err(e) => Err(e),
            },
            ParsedElement::Literal(t) => Ok(JsonValue::Str(t.clone())),
        };
    }
    let mut out = String::new();
    let mut i: usize = 0;
    while i < els.len()
        invariant
            i <= els.len(),
            model == elements_view(els@),
            concat(model.subrange(0, i as int), vars@) == Ok::<Seq<char>, Failure>(out@),
        decreases els.len() - i,
    {
        assert(model.subrange(0, i + 1).drop_last() =~= model.subrange(0, i as int));
        match element_text(&els[i], vars) {
            Ok(p) => {
                out.append(p.as_str());
            },
            Err(e) => {
                proof {
                    lemma_concat_error(model, i + 1, vars@);
                }
                return Err(e);
            },
        }
        i += 1;
    }
    assert(model.subrange(0, i as int) =~= model);
    Ok(JsonValue::Str(out))
}

/// An error among the first `n` elements is the error of all of them.
pub proof fn lemma_concat_error(els: Seq<Element>, n: int, env: Vars)
    requires
        0 <= n <= els.len(),
        concat(els.subrange(0, n), env) is Err,
    ensures
        concat(els, env) == concat(els.subrange(0, n), env),
    decreases els.len() - n,
{
    if n < els.len() {
        assert(els.subrange(0, n + 1).drop_last() =~= els.subrange(0, n));
        lemma_concat_error(els, n + 1, env);
    } else {
        assert(els.subrange(0, n) =~= els);
    }
}

/// Expands a string in an environment.
pub fn evaluate_tokens(input: &str, vars: &VariableSet) -> (r: Result<JsonValue, DigError>)
    ensures
        value_outcome(r, expand_text(input@, vars@)),
{
    let els = parse_all_elements(input);
    evaluate_elements(&els, vars)
}

/// Expands a string that must give a string; `token_type` names its role in
/// the error for any other value.
pub fn evaluate_tokens_to_string(input: &str, token_type: &str, vars: &VariableSet) -> (r: Result<
    String,
    DigError,
>)
    ensures
        string_outcome(r, expand_to_string(input@, token_type@, vars@)),
{
    match evaluate_tokens(input, vars) {
        Ok(JsonValue::Str(t)) => Ok(t),
        Ok(other) => Err(DigError::NotAString(token_type.to_owned(), other.to_json_text())),
        Err(e) => Err(e),
    }
}


/// What the key of an object's entry expands to: it must give a string.
pub open spec fn expand_key(key: Seq<char>, env: Vars) -> Result<Seq<char>, Failure> {
    match expand_text(key, env) {
        Ok(Json::Str(t)) => Ok(t),
        Ok(other) => Err(Failure::KeyNotString(key, json_text(other))),
        Err(e) => Err(e),
    }
}

/// How many items an array has, or entries an object; 0 for any other value.
pub open spec fn width(v: Json) -> int {
    match v {
        Json::Array(items) => items.len() as int,
        Json::Object(entries) => entries.len() as int,
        _ => 0,
    }
}

/// What the first `n` items of an array, or entries of an object, expand
/// to: an array of the expanded items; an object in which each expanded key
/// is bound to its expanded value, a later entry overwriting an earlier one
/// of the same key. The first error ends it.
pub open spec fn expand_prefix(v: Json, n: int, env: Vars) -> Result<Json, Failure>
    decreases v, n,
{
    match v {
        Json::Array(items) => if n <= 0 || n > items.len() {
            Ok(Json::Array(Seq::empty()))
        } else {
            match expand_prefix(v, n - 1, env) {
                Ok(Json::Array(done)) => match expand_value(items[n - 1], env) {
                    Ok(x) => Ok(Json::Array(done.push(x))),
                    Err(e) => Err(e),
                },
                other => other,
            }
        },
        Json::Object(entries) => if n <= 0 || n > entries.len() {
            Ok(Json::Object(Seq::empty()))
        } else {
            match expand_prefix(v, n - 1, env) {
                Ok(Json::Object(done)) => match expand_key(entries[n - 1].0, env) {
                    Err(e) => Err(e),
                    Ok(k) => match expand_value(entries[n - 1].1, env) {
                        Ok(x) => Ok(Json::Object(frame_insert(done, k, x))),
                        Err(e) => Err(e),
                    },
                },
                other => other,
            }
        },
        _ => Ok(v),
    }
}

/// What a value expands to: a string as [`expand_text`] says, an array
/// item by item, an object entry by entry (keys too), anything else itself.
pub open spec fn expand_value(v: Json, env: Vars) -> Result<Json, Failure>
    decreases v, width(v) + 1,
{
    match v {
        Json::Str(s) => expand_text(s, env),
        Json::Array(_) => expand_prefix(v, width(v), env),
        Json::Object(_) => expand_prefix(v, width(v), env),
        _ => Ok(v),
    }
}

/// An error among the first `k` items or entries is the error of all of them.
pub proof fn lemma_prefix_error(v: Json, k: int, n: int, env: Vars)
    requires
        0 <= k <= n <= width(v),
        expand_prefix(v, k, env) is Err,
    ensures
        expand_prefix(v, n, env) == expand_prefix(v, k, env),
    decreases n - k,
{
    if k < n {
        lemma_prefix_error(v, k, n - 1, env);
    }
}

impl JsonValue {
    /// Expands the tokens in every string of the value, keys of objects included.
    pub fn evaluate_tokens(&self, vars: &VariableSet) -> (r: Result<JsonValue, DigError>)
        ensures
            value_outcome(r, expand_value(self@, vars@)),
        decreases self,
    {
        match self {
            JsonValue::Str(s) => evaluate_tokens(s.as_str(), vars),
            JsonValue::Array(items) => {
                proof {
                    lemma_array_view(*items);
                }
                let mut out: Vec<JsonValue> = Vec::new();
                let mut i: usize = 0;
                assert(items_view(out@) =~= Seq::<Json>::empty());
                while i < items.len()
                    invariant
                        decreases_to!(*self => *items),
                        self@ == Json::Array(items_view(items@)),
                        i <= items.len(),
                        expand_prefix(self@, i as int, vars@) == Ok::<Json, Failure>(
                            Json::Array(items_view(out@)),
                        ),
                    decreases items.len() - i,
                {
                    proof {
                        assert(decreases_to!(items => items[i as int]));
                    }
                    match items[i].evaluate_tokens(vars) {
                        Ok(x) => {
                            let ghost before = items_view(out@);
                            out.push(x);
                            assert(items_view(out@) =~= before.push(x@));
                        },
                        Err(e) => {
                            proof {
                                lemma_prefix_error(self@, i + 1, items.len() as int, vars@);
                            }
                            return Err(e);
                        },
                    }
                    i += 1;
                }
                proof {
                    lemma_array_view(out);
                }
                Ok(JsonValue::Array(out))
            },
            JsonValue::Object(entries) => {
                proof {
                    lemma_object_view(*entries);
                }
                let mut out = VariableMap::new();
                let mut i: usize = 0;
                while i < entries.len()
                    invariant
                        decreases_to!(*self => *entries),
                        self@ == Json::Object(entries_view(entries@)),
                        i <= entries.len(),
                        expand_prefix(self@, i as int, vars@) == Ok::<Json, Failure>(
                            Json::Object(out@),
                        ),
                    decreases entries.len() - i,
                {
                    proof {
                        assert(decreases_to!(entries => entries[i as int]));
                        if expand_prefix(self@, i + 1, vars@) is Err {
                            lemma_prefix_error(self@, i + 1, entries.len() as int, vars@);
                        }
                    }
                    let key = match evaluate_tokens(entries[i].0.as_str(), vars) {
                        Ok(JsonValue::Str(t)) => t,
                        Ok(other) => {
                            return Err(
                                DigError::KeyNotString(entries[i].0.clone(), other.to_json_text()),
                            );
                        },
                        Err(e) => {
                            return Err(e);
                        },
                    };
                    match entries[i].1.evaluate_tokens(vars) {
                        Ok(x) => {
                            out.insert(key, x);
                        },
                        Err(e) => {
                            return Err(e);
                        },
                    }
                    i += 1;
                }
                proof {
                    lemma_object_view(out.entries);
                }
                Ok(JsonValue::Object(out.entries))
            },
            other => Ok(other.clone()),
        }
    }
}

/// The first `n` texts expanded to strings, in order; the error of the
/// first that has one.
pub open spec fn expand_all(texts: Seq<Seq<char>>, n: int, what: Seq<char>, env: Vars) -> Result<
    Seq<Seq<char>>,
    Failure,
>
    decreases n,
{
    if n <= 0 || n > texts.len() {
        Ok(Seq::empty())
    } else {
        match expand_all(texts, n - 1, what, env) {
            Err(e) => Err(e),
            Ok(done) => match expand_to_string(texts[n - 1], what, env) {
                Err(e) => Err(e),
                Ok(t) => Ok(done.push(t)),
            },
        }
    }
}

/// An error among the first `k` texts is the error of all of them.
pub proof fn lemma_expand_all_error(
    texts: Seq<Seq<char>>,
    k: int,
    n: int,
    what: Seq<char>,
    env: Vars,
)
    requires
        0 <= k <= n <= texts.len(),
        expand_all(texts, k, what, env) is Err,
    ensures
        expand_all(texts, n, what, env) == expand_all(texts, k, what, env),
    decreases n - k,
{
    if k < n {
        lemma_expand_all_error(texts, k, n - 1, what, env);
    }
}

/// Expands each text to a string; `token_type` names their role in errors.
pub fn evaluate_all_to_strings(texts: &Vec<String>, token_type: &str, vars: &VariableSet) -> (r:
    Result<Vec<String>, DigError>)
    ensures
        ({
            let model = expand_all(
                strings_view(texts@),
                texts@.len() as int,
                token_type@,
                vars@,
            );
            match r {
                Ok(v) => model == Ok::<Seq<Seq<char>>, Failure>(strings_view(v@)),
                Err(e) => model == Err::<Seq<Seq<char>>, Failure>(e@),
            }
        }),
{
    let mut out: Vec<String> = Vec::new();
    let mut i: usize = 0;
    assert(strings_view(out@) =~= Seq::<Seq<char>>::empty());
    while i < texts.len()
        invariant
            i <= texts.len(),
            expand_all(strings_view(texts@), i as int, token_type@, vars@) == Ok::<
                Seq<Seq<char>>,
                Failure,
            >(strings_view(out@)),
        decreases texts.len() - i,
    {
        proof {
            if expand_all(strings_view(texts@), i + 1, token_type@, vars@) is Err {
                lemma_expand_all_error(
                    strings_view(texts@),
                    i + 1,
                    texts@.len() as int,
                    token_type@,
                    vars@,
                );
            }
        }
        match evaluate_tokens_to_string(texts[i].as_str(), token_type, vars) {
            Ok(t) => {
                let ghost before = strings_view(out@);
                out.push(t);
                assert(strings_view(out@) =~= before.push(t@));
            },
            Err(e) => {
                return Err(e);
            },
        }
        i += 1;
    }
    Ok(out)
}

/// What must be a string: a string stays, any other value is an error
/// that names the role `what` and shows the value as JSON.
pub open spec fn as_string(value: Result<Json, Failure>, what: Seq<char>) -> Result<
    Seq<char>,
    Failure,
> {
    match value {
        Ok(Json::Str(t)) => Ok(t),
        Ok(other) => Err(Failure::NotAString(what, json_text(other))),
        Err(e) => Err(e),
    }
}

/// Something with tokens in it that can be expanded in an environment.
pub trait TokenedJsonValue {
    /// What it expands to.
    spec fn expansion(&self, env: Vars) -> Result<Json, Failure>;

    /// Expands it in an environment.
    fn evaluate_tokens(&self, vars: &VariableSet) -> (r: Result<JsonValue, DigError>)
        ensures
            value_outcome(r, self.expansion(vars@)),
    ;

    /// Expands it to a string; `token_type` names its role in the error
    /// for any other value.
    fn evaluate_tokens_to_string(&self, token_type: &str, vars: &VariableSet) -> (r: Result<
        String,
        DigError,
    >)
        ensures
            string_outcome(r, as_string(self.expansion(vars@), token_type@)),
    ;
}

/// A value that must be a string.
fn expect_string(value: Result<JsonValue, DigError>, token_type: &str) -> (r: Result<
    String,
    DigError,
>)
    ensures
        match value {
            Ok(v) => string_outcome(r, as_string(Ok(v@), token_type@)),
            Err(e) => string_outcome(r, as_string(Err(e@), token_type@)),
        },
{
    match value {
        Ok(JsonValue::Str(t)) => Ok(t),
        Ok(other) => Err(DigError::NotAString(token_type.to_owned(), other.to_json_text())),
        Err(e) => Err(e),
    }
}

impl TokenedJsonValue for String {
    open spec fn expansion(&self, env: Vars) -> Result<Json, Failure> {
        expand_text(self@, env)
    }

    fn evaluate_tokens(&self, vars: &VariableSet) -> (r: Result<JsonValue, DigError>) {
        evaluate_tokens(self.as_str(), vars)
    }

    fn evaluate_tokens_to_string(&self, token_type: &str, vars: &VariableSet) -> (r: Result<
        String,
        DigError,
    >) {
        expect_string(evaluate_tokens(self.as_str(), vars), token_type)
    }
}

impl TokenedJsonValue for &str {
    open spec fn expansion(&self, env: Vars) -> Result<Json, Failure> {
        expand_text(self@, env)
    }

    fn evaluate_tokens(&self, vars: &VariableSet) -> (r: Result<JsonValue, DigError>) {
        evaluate_tokens(*self, vars)
    }

    fn evaluate_tokens_to_string(&self, token_type: &str, vars: &VariableSet) -> (r: Result<
        String,
        DigError,
    >) {
        expect_string(evaluate_tokens(*self, vars), token_type)
    }
}

impl TokenedJsonValue for JsonValue {
    open spec fn expansion(&self, env: Vars) -> Result<Json, Failure> {
        expand_value(self@, env)
    }

    fn evaluate_tokens(&self, vars: &VariableSet) -> (r: Result<JsonValue, DigError>) {
        JsonValue::evaluate_tokens(self, vars)
    }

    fn evaluate_tokens_to_string(&self, token_type: &str, vars: &VariableSet) -> (r: Result<
        String,
        DigError,
    >) {
        expect_string(JsonValue::evaluate_tokens(self, vars), token_type)
    }
}

} // verus!
