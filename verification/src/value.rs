//! The JSON value that variables hold, and its mathematical model.

use vstd::prelude::*;

verus! {

/// Mathematical model of a JSON value. A number is held by its JSON text.
pub enum Json {
    Null,
    Bool(bool),
    Number(Seq<char>),
    Str(Seq<char>),
    Array(Seq<Json>),
    Object(Seq<(Seq<char>, Json)>),
}

/// A JSON value. A number is held by its JSON text (`22`, `43.7`); an object
/// keeps its entries in order.
#[derive(Debug, PartialEq)]
pub enum JsonValue {
    Null,
    Bool(bool),
    Number(String),
    Str(String),
    Array(Vec<JsonValue>),
    Object(Vec<(String, JsonValue)>),
}

/// The model of a list of values.
pub open spec fn items_view(items: Seq<JsonValue>) -> Seq<Json> {
    Seq::new(items.len(), |i: int| items[i]@)
}

/// The model of a list of keyed values.
pub open spec fn entries_view(entries: Seq<(String, JsonValue)>) -> Seq<(Seq<char>, Json)> {
    Seq::new(entries.len(), |i: int| (entries[i].0@, entries[i].1@))
}

impl View for JsonValue {
    type V = Json;

    open spec fn view(&self) -> Json
        decreases self,
    {
        match self {
            JsonValue::Null => Json::Null,
            JsonValue::Bool(b) => Json::Bool(*b),
            JsonValue::Number(n) => Json::Number(n@),
            JsonValue::Str(s) => Json::Str(s@),
            JsonValue::Array(items) => Json::Array(
                Seq::new(
                    items.len() as nat,
                    |i: int|
                        if 0 <= i < items.len() {
                            items[i].view()
                        } else {
                            Json::Null
                        },
                ),
            ),
            JsonValue::Object(entries) => Json::Object(
                Seq::new(
                    entries.len() as nat,
                    |i: int|
                        (
                            entries[i].0@,
                            if 0 <= i < entries.len() {
                                entries[i].1.view()
                            } else {
                                Json::Null
                            },
                        ),
                ),
            ),
        }
    }
}


/// What an array's model is, over the models of its items.
pub proof fn lemma_array_view(items: Vec<JsonValue>)
    ensures
        JsonValue::Array(items)@ == Json::Array(items_view(items@)),
{
    assert(JsonValue::Array(items)@->Array_0 =~= items_view(items@));
}

/// What an object's model is, over the models of its entries.
pub proof fn lemma_object_view(entries: Vec<(String, JsonValue)>)
    ensures
        JsonValue::Object(entries)@ == Json::Object(entries_view(entries@)),
{
    let lhs = match JsonValue::Object(entries)@ {
        Json::Object(e) => e,
        _ => Seq::empty(),
    };
    let rhs = entries_view(entries@);
    assert(lhs.len() == rhs.len());
    assert forall|i: int| 0 <= i < lhs.len() implies lhs[i] == rhs[i] by {
        assert(lhs[i].0 == entries[i].0@);
        assert(lhs[i].1 == entries[i].1@);
    }
    assert(lhs =~= rhs);
    assert(JsonValue::Object(entries)@ == Json::Object(lhs));
}

impl Clone for JsonValue {
    fn clone(&self) -> (r: JsonValue)
        ensures
            r@ == self@,
        decreases self,
    {
        match self {
            JsonValue::Null => JsonValue::Null,
            JsonValue::Bool(b) => JsonValue::Bool(*b),
            JsonValue::Number(n) => JsonValue::Number(n.clone()),
            JsonValue::Str(s) => JsonValue::Str(s.clone()),
            JsonValue::Array(items) => {
                let mut out: Vec<JsonValue> = Vec::new();
                let mut i: usize = 0;
                while i < items.len()
                    invariant
                        decreases_to!(*self => *items),
                        i <= items.len(),
                        out.len() == i,
                        forall|j: int| 0 <= j < i ==> out[j]@ == items[j]@,
                    decreases items.len() - i,
                {
                    proof {
                        assert(decreases_to!(items => items[i as int]));
                    }
                    out.push(items[i].clone());
                    i += 1;
                }
                proof {
                    lemma_array_view(*items);
                    lemma_array_view(out);
                    assert(items_view(out@) =~= items_view(items@));
                }
                JsonValue::Array(out)
            },
            JsonValue::Object(entries) => {
                let mut out: Vec<(String, JsonValue)> = Vec::new();
                let mut i: usize = 0;
                while i < entries.len()
                    invariant
                        decreases_to!(*self => *entries),
                        i <= entries.len(),
                        out.len() == i,
                        forall|j: int|
                            0 <= j < i ==> out[j].0@ == entries[j].0@ && out[j].1@ == entries[j].1@,
                    decreases entries.len() - i,
                {
                    proof {
                        assert(decreases_to!(entries => entries[i as int]));
                    }
                    out.push((entries[i].0.clone(), entries[i].1.clone()));
                    i += 1;
                }
                proof {
                    lemma_object_view(*entries);
                    lemma_object_view(out);
                    assert(entries_view(out@) =~= entries_view(entries@));
                }
                JsonValue::Object(out)
            },
        }
    }
}

impl JsonValue {
    /// Strict equality of JSON values: same kind, same content, entries in
    /// the same order.
    pub fn same(&self, other: &JsonValue) -> (r: bool)
        ensures
            r == (self@ == other@),
        decreases self,
    {
        match (self, other) {
            (JsonValue::Null, JsonValue::Null) => true,
            (JsonValue::Bool(a), JsonValue::Bool(b)) => *a == *b,
            (JsonValue::Number(a), JsonValue::Number(b)) => *a == *b,
            (JsonValue::Str(a), JsonValue::Str(b)) => *a == *b,
            (JsonValue::Array(a), JsonValue::Array(b)) => {
                proof {
                    lemma_array_view(*a);
                    lemma_array_view(*b);
                }
                if a.len() != b.len() {
                    assert(items_view(a@).len() != items_view(b@).len());
                    return false;
                }
                let mut i: usize = 0;
                while i < a.len()
                    invariant
                        decreases_to!(*self => *a),
                        self@ == Json::Array(items_view(a@)),
                        other@ == Json::Array(items_view(b@)),
                        a.len() == b.len(),
                        i <= a.len(),
                        forall|j: int| 0 <= j < i ==> a[j]@ == b[j]@,
                    decreases a.len() - i,
                {
                    proof {
                        assert(decreases_to!(a => a[i as int]));
                    }
                    if !a[i].same(&b[i]) {
                        assert(items_view(a@)[i as int] != items_view(b@)[i as int]);
                        return false;
                    }
                    i += 1;
                }
                assert(items_view(a@) =~= items_view(b@));
                true
            },
            (JsonValue::Object(a), JsonValue::Object(b)) => {
                proof {
                    lemma_object_view(*a);
                    lemma_object_view(*b);
                }
                if a.len() != b.len() {
                    assert(entries_view(a@).len() != entries_view(b@).len());
                    return false;
                }
                let mut i: usize = 0;
                while i < a.len()
                    invariant
                        decreases_to!(*self => *a),
                        self@ == Json::Object(entries_view(a@)),
                        other@ == Json::Object(entries_view(b@)),
                        a.len() == b.len(),
                        i <= a.len(),
                        forall|j: int| 0 <= j < i ==> a[j].0@ == b[j].0@ && a[j].1@ == b[j].1@,
                    decreases a.len() - i,
                {
                    proof {
                        assert(decreases_to!(a => a[i as int]));
                    }
                    if a[i].0 != b[i].0 || !a[i].1.same(&b[i].1) {
                        assert(entries_view(a@)[i as int] != entries_view(b@)[i as int]);
                        return false;
                    }
                    i += 1;
                }
                assert(entries_view(a@) =~= entries_view(b@));
                true
            },
            _ => false,
        }
    }
}


#[verifier::external_type_specification]
#[verifier::external_body]
pub struct ExOutsideJson(serde_json::Value);

/// The value that a `serde_json::Value` holds.
pub uninterp spec fn outside_json(value: serde_json::Value) -> Json;

/// What `serde_json::from_str` makes of a text: the value it parses to, or
/// nothing where the text is no JSON document.
pub uninterp spec fn json_parse(text: Seq<char>) -> Option<Json>;

/// The value as a `serde_json::Value` holds it: a map keeps one entry for
/// each key, and a number must be one that `serde_json::Number` reads.
pub uninterp spec fn json_normal(value: Json) -> Json;

/// The compact JSON text that `serde_json::to_string` writes for what a
/// `serde_json::Value` holds.
pub uninterp spec fn outside_text(value: Json) -> Seq<char>;

/// The compact JSON text of a value.
pub open spec fn json_text(value: Json) -> Seq<char> {
    outside_text(json_normal(value))
}

/// Calls `serde_json::from_str` for a `serde_json::Value`: what comes back
/// holds the value that the text parses to, under the name [`json_parse`];
/// nothing comes back where parsing fails.
#[verifier::external_body]
fn parse_outside(text: &str) -> (r: Option<serde_json::Value>)
    ensures
        match r {
            Some(v) => json_parse(text@) == Some(outside_json(v)),
            None => json_parse(text@) is None,
        },
{
    serde_json::from_str::<serde_json::Value>(text).ok()
}

/// Rebuilds a `serde_json::Value` as a [`JsonValue`], variant by variant:
/// the result is what the value holds. A number is kept by the text that
/// `serde_json::Number` displays.
#[verifier::external_body]
fn from_outside(v: serde_json::Value) -> (r: JsonValue)
    ensures
        r@ == outside_json(v),
{
    match v {
        serde_json::Value::Null => JsonValue::Null,
        serde_json::Value::Bool(b) => JsonValue::Bool(b),
        serde_json::Value::Number(n) => JsonValue::Number(n.to_string()),
        serde_json::Value::String(s) => JsonValue::Str(s),
        serde_json::Value::Array(a) => JsonValue::Array(a.into_iter().map(from_outside).collect()),
        serde_json::Value::Object(m) => JsonValue::Object(
            m.into_iter().map(|(k, x)| (k, from_outside(x))).collect(),
        ),
    }
}

/// Rebuilds a [`JsonValue`] as a `serde_json::Value`, variant by variant:
/// the result holds the value under the name [`json_normal`]. The entries
/// of an object are collected into a `serde_json::Map`; a number whose text
/// `serde_json::Number` does not read becomes null.
#[verifier::external_body]
fn to_outside(v: &JsonValue) -> (r: serde_json::Value)
    ensures
        outside_json(r) == json_normal(v@),
{
    match v {
        JsonValue::Null => serde_json::Value::Null,
        JsonValue::Bool(b) => serde_json::Value::Bool(*b),
        JsonValue::Number(n) => n.parse().map_or(serde_json::Value::Null, serde_json::Value::Number),
        JsonValue::Str(s) => serde_json::Value::String(s.clone()),
        JsonValue::Array(a) => serde_json::Value::Array(a.iter().map(to_outside).collect()),
        JsonValue::Object(m) => serde_json::Value::Object(
            m.iter().map(|(k, x)| (k.clone(), to_outside(x))).collect(),
        ),
    }
}

/// Calls `serde_json::to_string` on a `serde_json::Value`: the result is
/// the compact JSON text of what it holds, under the name [`outside_text`].
#[verifier::external_body]
fn render_outside(value: &serde_json::Value) -> (r: String)
    ensures
        r@ == outside_text(outside_json(*value)),
{
    match serde_json::to_string(value) {
        Ok(s) => s,
        Err(_) => String::new(),
    }
}

/// Parses a text as JSON.
fn parse_json(text: &str) -> (r: Option<JsonValue>)
    ensures
        match r {
            Some(v) => json_parse(text@) == Some(v@),
            None => json_parse(text@) is None,
        },
{
    match parse_outside(text) {
        Some(v) => Some(from_outside(v)),
        None => None,
    }
}

/// The compact JSON text of a value.
fn render_json(value: &JsonValue) -> (r: String)
    ensures
        r@ == json_text(value@),
{
    let outside = to_outside(value);
    render_outside(&outside)
}

/// The value that an output stands for, given what parsing it as JSON gave:
/// the parsed value, or else the output itself as a string.
pub open spec fn parsed_or_text(parsed: Option<Json>, text: Seq<char>) -> Json {
    match parsed {
        Some(v) => v,
        None => Json::Str(text),
    }
}

/// The text of a value inside a longer string, given its JSON text: a
/// string stands for itself, anything else for its JSON text.
pub open spec fn raw_or_rendered(value: Json, rendered: Seq<char>) -> Seq<char> {
    match value {
        Json::Str(s) => s,
        _ => rendered,
    }
}

impl JsonValue {
    /// The parsed value where there is one, else the text as a string.
    pub fn or_text(parsed: Option<JsonValue>, text: String) -> (r: JsonValue)
        ensures
            r@ == parsed_or_text(
                match parsed {
                    Some(v) => Some(v@),
                    None => None,
                },
                text@,
            ),
    {
        match parsed {
            Some(v) => v,
            None => JsonValue::Str(text),
        }
    }

    /// The value of a process output: parsed as JSON when possible, else the
    /// output as a string.
    pub fn from_output(text: String) -> (r: JsonValue)
        ensures
            r@ == parsed_or_text(json_parse(text@), text@),
    {
        let parsed = parse_json(text.as_str());
        JsonValue::or_text(parsed, text)
    }

    /// The compact JSON text of the value.
    pub fn to_json_text(&self) -> (r: String)
        ensures
            r@ == json_text(self@),
    {
        render_json(self)
    }

    /// The text of the value inside a longer string: a string stands for
    /// itself, anything else for its JSON text.
    pub fn to_plain_text(&self) -> (r: String)
        ensures
            r@ == raw_or_rendered(self@, json_text(self@)),
    {
        match self {
            JsonValue::Str(s) => s.clone(),
            _ => render_json(self),
        }
    }
}

} // verus!
