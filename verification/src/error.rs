//! What can go wrong while a task is prepared and evaluated.

use vstd::prelude::*;
use vstd::string::StringExecFns;

verus! {

/// Mathematical model of a [`DigError`].
pub enum Failure {
    UnknownKey(Seq<char>),
    NotAString(Seq<char>, Seq<char>),
    KeyNotString(Seq<char>, Seq<char>),
    GateSyntax,
    MapOverObject(Seq<char>),
    InvalidDirectory(Seq<char>),
    NoOutput,
    Subprocess(Seq<char>),
    UnknownTask(Seq<char>),
    Canceled(Seq<char>),
    TestCanceled,
    UnexpectedAnswer,
    MissingInput(Seq<char>),
    BadOverride(Seq<char>),
}

/// An error of the runner.
#[derive(Debug, PartialEq)]
pub enum DigError {
    /// No frame of the variables holds this key.
    UnknownKey(String),
    /// Something that must be a string (named first) expanded to this JSON text.
    NotAString(String, String),
    /// This key of an object expanded to this JSON text, which is no string.
    KeyNotString(String, String),
    /// An internal gate holds more than one `=`.
    GateSyntax,
    /// The source expression of a fan-out expanded to an object.
    MapOverObject(String),
    /// The working directory does not exist.
    InvalidDirectory(String),
    /// A command that defines a variable did not complete with an output.
    NoOutput,
    /// A process ended with a non-zero exit code; this is what it wrote to stderr.
    Subprocess(String),
    /// The configuration holds no task of this name.
    UnknownTask(String),
    /// The task with this label was canceled.
    Canceled(String),
    /// The process that tests a gate ended without an exit code.
    TestCanceled,
    /// An answer is not of the kind that its request asks for.
    UnexpectedAnswer,
    /// An input file of a task does not exist.
    MissingInput(String),
    /// A variable given on the command line is not of the form KEY=VALUE.
    BadOverride(String),
}

impl View for DigError {
    type V = Failure;

    open spec fn view(&self) -> Failure {
        match self {
            DigError::UnknownKey(k) => Failure::UnknownKey(k@),
            DigError::NotAString(w, f) => Failure::NotAString(w@, f@),
            DigError::KeyNotString(k, f) => Failure::KeyNotString(k@, f@),
            DigError::GateSyntax => Failure::GateSyntax,
            DigError::MapOverObject(s) => Failure::MapOverObject(s@),
            DigError::InvalidDirectory(d) => Failure::InvalidDirectory(d@),
            DigError::NoOutput => Failure::NoOutput,
            DigError::Subprocess(e) => Failure::Subprocess(e@),
            DigError::UnknownTask(t) => Failure::UnknownTask(t@),
            DigError::Canceled(l) => Failure::Canceled(l@),
            DigError::TestCanceled => Failure::TestCanceled,
            DigError::UnexpectedAnswer => Failure::UnexpectedAnswer,
            DigError::MissingInput(p) => Failure::MissingInput(p@),
            DigError::BadOverride(v) => Failure::BadOverride(v@),
        }
    }
}

/// The text of a failure, as it is shown to the user.
pub open spec fn failure_text(f: Failure) -> Seq<char> {
    match f {
        Failure::UnknownKey(k) => "Failed to get key '"@ + k + "'"@,
        Failure::NotAString(w, v) => "A "@ + w + " must evaluate to a String. Got '"@ + v + "'"@,
        Failure::KeyNotString(k, v) => "Map keys should always map to strings: '"@ + k
            + "' became '"@ + v + "'"@,
        Failure::GateSyntax => "An If-Statement should only be splittable along one '=' character"@,
        Failure::MapOverObject(s) => "Unable to map over object variable '"@ + s + "'"@,
        Failure::InvalidDirectory(d) => "Invalid directory '"@ + d + "'"@,
        Failure::NoOutput => "Command did not result in an output"@,
        Failure::Subprocess(e) => e,
        Failure::UnknownTask(t) => "Unknown task '"@ + t + "'"@,
        Failure::Canceled(l) => "Task "@ + l + " canceled"@,
        Failure::TestCanceled => "The test has been canceled"@,
        Failure::UnexpectedAnswer => "An answer does not fit its request"@,
        Failure::MissingInput(p) => "Missing input file '"@ + p + "'"@,
        Failure::BadOverride(v) => "A key value pair should be given as KEY=VALUE. Got '"@ + v
            + "'"@,
    }
}

/// `a`, `b` and `c` in a row.
fn wrap(a: &str, b: &str, c: &str) -> (r: String)
    ensures
        r@ == a@ + b@ + c@,
{
    let mut out = a.to_owned();
    out.append(b);
    out.append(c);
    out
}

impl DigError {
    /// The text of the error, as it is shown to the user.
    pub fn message(&self) -> (r: String)
        ensures
            r@ == failure_text(self@),
    {
        match self {
            DigError::UnknownKey(k) => wrap("Failed to get key '", k.as_str(), "'"),
            DigError::NotAString(w, v) => {
                let mut out = wrap("A ", w.as_str(), " must evaluate to a String. Got '");
                out.append(v.as_str());
                out.append("'");
                out
            },
            DigError::KeyNotString(k, v) => {
                let mut out = wrap("Map keys should always map to strings: '", k.as_str(), "' became '");
                out.append(v.as_str());
                out.append("'");
                out
            },
            DigError::GateSyntax => {
                "An If-Statement should only be splittable along one '=' character".to_owned()
            },
            DigError::MapOverObject(s) => wrap("Unable to map over object variable '", s.as_str(), "'"),
            DigError::InvalidDirectory(d) => wrap("Invalid directory '", d.as_str(), "'"),
            DigError::NoOutput => "Command did not result in an output".to_owned(),
            DigError::Subprocess(e) => e.clone(),
            DigError::UnknownTask(t) => wrap("Unknown task '", t.as_str(), "'"),
            DigError::Canceled(l) => wrap("Task ", l.as_str(), " canceled"),
            DigError::TestCanceled => "The test has been canceled".to_owned(),
            DigError::UnexpectedAnswer => "An answer does not fit its request".to_owned(),
            DigError::MissingInput(p) => wrap("Missing input file '", p.as_str(), "'"),
            DigError::BadOverride(v) => wrap(
                "A key value pair should be given as KEY=VALUE. Got '",
                v.as_str(),
                "'",
            ),
        }
    }
}

impl Clone for DigError {
    fn clone(&self) -> (r: DigError)
        ensures
            r@ == self@,
    {
        match self {
            DigError::UnknownKey(k) => DigError::UnknownKey(k.clone()),
            DigError::NotAString(w, f) => DigError::NotAString(w.clone(), f.clone()),
            DigError::KeyNotString(k, f) => DigError::KeyNotString(k.clone(), f.clone()),
            DigError::GateSyntax => DigError::GateSyntax,
            DigError::MapOverObject(s) => DigError::MapOverObject(s.clone()),
            DigError::InvalidDirectory(d) => DigError::InvalidDirectory(d.clone()),
            DigError::NoOutput => DigError::NoOutput,
            DigError::Subprocess(e) => DigError::Subprocess(e.clone()),
            DigError::UnknownTask(t) => DigError::UnknownTask(t.clone()),
            DigError::Canceled(l) => DigError::Canceled(l.clone()),
            DigError::TestCanceled => DigError::TestCanceled,
            DigError::UnexpectedAnswer => DigError::UnexpectedAnswer,
            DigError::MissingInput(p) => DigError::MissingInput(p.clone()),
            DigError::BadOverride(v) => DigError::BadOverride(v.clone()),
        }
    }
}

} // verus!
