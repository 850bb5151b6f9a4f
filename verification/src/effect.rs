//! What the library asks of the outside world, and what it is told.
//!
//! The library starts no process and reads no file. A function that needs
//! one of these is given the answers received so far; where they run out it
//! pauses with the next request. The caller performs the request, adds the
//! answer to the list and calls again with the same arguments.

use vstd::prelude::*;
use crate::error::DigError;
use crate::error::Failure;
use crate::run_context::EnvMap;
use crate::run_context::Pairs;
use crate::text::strings_view;

verus! {

/// Mathematical model of a [`Command`].
pub struct CommandLine {
    pub program: Seq<char>,
    pub args: Seq<Seq<char>>,
    pub env: Option<Pairs>,
    pub dir: Option<Seq<char>>,
    pub shown: Seq<char>,
    pub silent: bool,
}

/// A process to start: the program, its arguments, the variables added to
/// its environment, its working directory, the line that shows it to the
/// user, and whether its output is kept from the terminal.
#[derive(Debug, PartialEq)]
pub struct Command {
    pub program: String,
    pub args: Vec<String>,
    pub env: Option<EnvMap>,
    pub dir: Option<String>,
    pub shown: String,
    pub silent: bool,
}

impl View for Command {
    type V = CommandLine;

    open spec fn view(&self) -> CommandLine {
        CommandLine {
            program: self.program@,
            args: strings_view(self.args@),
            env: match self.env {
                Some(e) => Some(e@),
                None => None,
            },
            dir: match self.dir {
                Some(d) => Some(d@),
                None => None,
            },
            shown: self.shown@,
            silent: self.silent,
        }
    }
}

/// Mathematical model of a [`Request`].
pub enum Query {
    Run(CommandLine),
    DirExists(Seq<char>),
    Modified(Seq<char>),
    Now,
}

/// Something that only the caller can do.
#[derive(Debug, PartialEq)]
pub enum Request {
    /// Run this process to its end; answered by `Exit` or `SpawnFailed`.
    Run(Command),
    /// Is this path an existing directory? Answered by `Flag`.
    DirExists(String),
    /// When was this file last modified? Answered by `Time`, with `None`
    /// for a file that does not exist.
    Modified(String),
    /// What time is it? Answered by `Time`.
    Now,
}

impl View for Request {
    type V = Query;

    open spec fn view(&self) -> Query {
        match self {
            Request::Run(c) => Query::Run(c@),
            Request::DirExists(p) => Query::DirExists(p@),
            Request::Modified(p) => Query::Modified(p@),
            Request::Now => Query::Now,
        }
    }
}

/// Mathematical model of an [`Answer`].
pub enum Reply {
    Exit(Option<i32>, Seq<char>, Seq<char>),
    SpawnFailed(Seq<char>),
    Flag(bool),
    Time(Option<u64>),
}

/// What the caller found.
#[derive(Debug, PartialEq)]
pub enum Answer {
    /// The process ended: its exit code (none if a signal ended it), what
    /// it wrote to stdout and what it wrote to stderr.
    Exit(Option<i32>, String, String),
    /// The process could not be started; the text says why.
    SpawnFailed(String),
    /// Yes or no.
    Flag(bool),
    /// A point in time, in ticks since the epoch; `None` where there is none.
    Time(Option<u64>),
}

impl View for Answer {
    type V = Reply;

    open spec fn view(&self) -> Reply {
        match self {
            Answer::Exit(code, out, err) => Reply::Exit(*code, out@, err@),
            Answer::SpawnFailed(m) => Reply::SpawnFailed(m@),
            Answer::Flag(b) => Reply::Flag(*b),
            Answer::Time(t) => Reply::Time(*t),
        }
    }
}

/// The models of a list of answers.
pub open spec fn replies(answers: Seq<Answer>) -> Seq<Reply> {
    Seq::new(answers.len(), |i: int| answers[i]@)
}

/// Mathematical model of a [`Pause`].
pub enum Halt {
    Ask(Query),
    Fail(Failure),
}

/// Why a function did not run to its end: it needs an answer, or it failed.
#[derive(Debug, PartialEq)]
pub enum Pause {
    /// The answers ran out: this is the next request.
    Ask(Request),
    /// The evaluation failed.
    Fail(DigError),
}

impl View for Pause {
    type V = Halt;

    open spec fn view(&self) -> Halt {
        match self {
            Pause::Ask(r) => Halt::Ask(r@),
            Pause::Fail(e) => Halt::Fail(e@),
        }
    }
}

/// The answer at index `at`, or a pause with `query` where the answers have run out.
pub open spec fn reply_at(answers: Seq<Reply>, at: int, query: Query) -> Result<Reply, Halt> {
    if 0 <= at < answers.len() {
        Ok(answers[at])
    } else {
        Err(Halt::Ask(query))
    }
}

/// The next answer, or a pause with `request` where the answers have run out.
pub fn next_answer<'a>(answers: &'a Vec<Answer>, cursor: &mut usize, request: Request) -> (r:
    Result<&'a Answer, Pause>)
    ensures
        match r {
            Ok(a) => reply_at(replies(answers@), *old(cursor) as int, request@) == Ok::<
                Reply,
                Halt,
            >(a@) && *final(cursor) == *old(cursor) + 1,
            Err(p) => reply_at(replies(answers@), *old(cursor) as int, request@) == Err::<
                Reply,
                Halt,
            >(p@) && *final(cursor) == *old(cursor),
        },
{
    if *cursor < answers.len() {
        let a = &answers[*cursor];
        *cursor = *cursor + 1;
        Ok(a)
    } else {
        Err(Pause::Ask(request))
    }
}

} // verus!
