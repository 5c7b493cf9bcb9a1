//! What can go wrong in an invocation, and how it is reported.

use vstd::prelude::*;
use vstd::string::*;

verus! {

/// Exit code of a launcher that could not do its work.
pub const ERROR_EXIT_CODE: i32 = 1;

/// A failure of the launcher or of the alias tooling. Every one of them ends
/// the invocation.
#[derive(Debug, Clone, PartialEq, Eq)]
pub enum Error {
    /// The descriptor file is absent or cannot be read.
    MetadataNotFound { path: String },
    /// The descriptor, or the hook named, raised a fault when it was evaluated.
    ScriptError { hook: String, message: String },
    /// The descriptor lacks a field that must be there.
    MissingField { name: String },
    /// A field of the descriptor holds a value of the wrong kind.
    WrongType { name: String },
    /// The operating system could not start or await a process.
    SpawnFailure { message: String },
    /// A path does not end in the extension that was expected of it.
    InvalidExtension { path: String },
}

pub enum ErrorView {
    MetadataNotFound { path: Seq<char> },
    ScriptError { hook: Seq<char>, message: Seq<char> },
    MissingField { name: Seq<char> },
    WrongType { name: Seq<char> },
    SpawnFailure { message: Seq<char> },
    InvalidExtension { path: Seq<char> },
}

impl View for Error {
    type V = ErrorView;

    open spec fn view(&self) -> ErrorView {
        match self {
            Error::MetadataNotFound { path } => ErrorView::MetadataNotFound { path: path@ },
            Error::ScriptError { hook, message } => ErrorView::ScriptError {
                hook: hook@,
                message: message@,
            },
            Error::MissingField { name } => ErrorView::MissingField { name: name@ },
            Error::WrongType { name } => ErrorView::WrongType { name: name@ },
            Error::SpawnFailure { message } => ErrorView::SpawnFailure { message: message@ },
            Error::InvalidExtension { path } => ErrorView::InvalidExtension { path: path@ },
        }
    }
}

impl ErrorView {
    /// The one-line description of the failure.
    pub open spec fn text(self) -> Seq<char> {
        match self {
            ErrorView::MetadataNotFound { path } => "metadata not found for "@ + path,
            ErrorView::ScriptError { hook, message } => "Lua error in "@ + hook + ": "@ + message,
            ErrorView::MissingField { name } => "missing field: "@ + name,
            ErrorView::WrongType { name } => "wrong type of field: "@ + name,
            ErrorView::SpawnFailure { message } => "IO error: "@ + message,
            ErrorView::InvalidExtension { path } => "invalid extension: "@ + path,
        }
    }
}

impl Error {
    /// The one-line description of the failure.
    pub fn message(&self) -> (text: String)
        ensures
            text@ == self@.text(),
    {
        match self {
            Error::MetadataNotFound { path } => {
                let mut text = String::from_str("metadata not found for ");
                text.append(path.as_str());
                text
            },
            Error::ScriptError { hook, message } => {
                let mut text = String::from_str("Lua error in ");
                text.append(hook.as_str());
                text.append(": ");
                text.append(message.as_str());
                text
            },
            Error::MissingField { name } => {
                let mut text = String::from_str("missing field: ");
                text.append(name.as_str());
                text
            },
            Error::WrongType { name } => {
                let mut text = String::from_str("wrong type of field: ");
                text.append(name.as_str());
                text
            },
            Error::SpawnFailure { message } => {
                let mut text = String::from_str("IO error: ");
                text.append(message.as_str());
                text
            },
            Error::InvalidExtension { path } => {
                let mut text = String::from_str("invalid extension: ");
                text.append(path.as_str());
                text
            },
        }
    }
}

/// The exit code of an invocation that ended in `outcome`.
pub open spec fn exit_code_spec(outcome: Result<i32, Error>) -> i32 {
    match outcome {
        Ok(code) => code,
        Err(_) => ERROR_EXIT_CODE,
    }
}

/// The exit code of an invocation that ended in `outcome`: the code it
/// arrived at, or [`ERROR_EXIT_CODE`] for any failure.
pub fn exit_code(outcome: &Result<i32, Error>) -> (code: i32)
    ensures
        code == exit_code_spec(*outcome),
{
    match outcome {
        Ok(code) => *code,
        Err(_) => ERROR_EXIT_CODE,
    }
}

/// The lines that report a failure and what led to it: `causes[0]` after the
/// label `error`, every further cause after `due to`.
pub open spec fn report_spec(causes: Seq<Seq<char>>) -> Seq<char>
    decreases causes.len(),
{
    if causes.len() == 0 {
        Seq::empty()
    } else if causes.len() == 1 {
        "error: "@ + causes[0] + "\n"@
    } else {
        report_spec(causes.drop_last()) + "due to: "@ + causes.last() + "\n"@
    }
}

/// Renders a chain of causes, outermost first, one per line.
pub fn report(causes: &Vec<String>) -> (text: String)
    ensures
        text@ == report_spec(causes.deep_view()),
{
    let mut text = String::new();
    let mut i: usize = 0;
    while i < causes.len()
        invariant
            i <= causes.len(),
            text@ == report_spec(causes.deep_view().take(i as int)),
        decreases causes.len() - i,
    {
        let ghost before = causes.deep_view().take(i as int);
        let ghost after = causes.deep_view().take(i + 1);
        if i == 0 {
            text.append("error: ");
        } else {
            text.append("due to: ");
        }
        text.append(causes[i].as_str());
        text.append("\n");
        proof {
            assert(after.drop_last() =~= before);
            assert(after.last() == causes[i as int]@);
            assert(Seq::<char>::empty() + "error: "@ =~= "error: "@);
        }
        i += 1;
    }
    assert(causes.deep_view().take(causes.len() as int) =~= causes.deep_view());
    text
}

} // verus!
