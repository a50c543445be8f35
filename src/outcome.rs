use vstd::prelude::*;
use crate::language::Language;
use crate::text::{
    ERROR_PREFIX, ERROR_USAGE_MESSAGE, HELP_MESSAGE, VERSION, error_text, joined,
    usage_error_text,
};

verus! {

/// Report of a first argument that starts with `-` but is no known option.
pub open spec fn unexpected_argument_text(a: Seq<char>) -> Seq<char> {
    usage_error_text(error_text("unexpected argument \x1b[1;33m'"@ + a + "'\x1b[0m found"@))
}

/// Report of a first argument that names no supported language.
pub open spec fn unsupported_language_text(a: Seq<char>) -> Seq<char> {
    usage_error_text(error_text("Unsupported language:"@) + " "@ + a)
}

/// The message reported when a required argument is missing or empty.
pub struct Error {
    pub error: &'static str,
}

impl Error {
    pub fn new(error: &'static str) -> (r: Error)
        ensures
            r.error == error,
    {
        Error { error }
    }
}

/// Everything that ends an invocation unsuccessfully. Each is reported once on
/// standard error and ends the process with status 1.
pub enum Failure {
    /// A first argument that starts with `-` but is no known option.
    UnexpectedArgument(String),
    /// A first argument that names no supported language.
    UnsupportedLanguage(String),
    /// A required argument that is absent or empty.
    MissingArgument(Error),
    /// The home directory of the user cannot be found.
    NoHomeDirectory,
    /// The build directory could not be created.
    CreateWorkspace,
    /// The binary's path cannot be written as text.
    PathNotUtf8,
    /// The compiler frontend could not be started.
    LaunchCompiler(Language),
    /// The compiler ran and reported failure.
    CompileFailed,
    /// The compiled binary could not be started.
    LaunchBinary,
    /// The compiled binary could not be removed.
    DeleteBinary,
}

impl Failure {
    /// The text reported for this failure.
    pub open spec fn message_spec(&self) -> Seq<char> {
        match self {
            Failure::UnexpectedArgument(a) => unexpected_argument_text(a@),
            Failure::UnsupportedLanguage(a) => unsupported_language_text(a@),
            Failure::MissingArgument(e) => usage_error_text(e.error@),
            Failure::NoHomeDirectory => error_text("No home directory"@),
            Failure::CreateWorkspace => error_text("Failed to create .clrun directory"@),
            Failure::PathNotUtf8 => error_text("Path is not valid UTF-8"@),
            Failure::LaunchCompiler(l) => error_text("Failed to run"@) + " "@ + l.compiler_spec(),
            Failure::CompileFailed => error_text("Compile failed"@),
            Failure::LaunchBinary => error_text("Failed to run binary file"@),
            Failure::DeleteBinary => error_text("Failed to delete binary file"@),
        }
    }

    /// The text reported for this failure.
    pub fn message(&self) -> (r: String)
        ensures
            r@ == self.message_spec(),
    {
        match self {
            Failure::UnexpectedArgument(a) => {
                let s = joined(ERROR_PREFIX, "unexpected argument \x1b[1;33m'");
                let s = joined(s.as_str(), a.as_str());
                let s = joined(s.as_str(), "'\x1b[0m found");
                usage_error(s)
            },
            Failure::UnsupportedLanguage(a) => {
                let s = joined(ERROR_PREFIX, "Unsupported language:");
                let s = joined(s.as_str(), " ");
                let s = joined(s.as_str(), a.as_str());
                usage_error(s)
            },
            Failure::MissingArgument(e) => usage_error(String::from_str(e.error)),
            Failure::NoHomeDirectory => joined(ERROR_PREFIX, "No home directory"),
            Failure::CreateWorkspace => joined(ERROR_PREFIX, "Failed to create .clrun directory"),
            Failure::PathNotUtf8 => joined(ERROR_PREFIX, "Path is not valid UTF-8"),
            Failure::LaunchCompiler(l) => {
                let s = joined(ERROR_PREFIX, "Failed to run");
                let s = joined(s.as_str(), " ");
                joined(s.as_str(), l.compiler())
            },
            Failure::CompileFailed => joined(ERROR_PREFIX, "Compile failed"),
            Failure::LaunchBinary => joined(ERROR_PREFIX, "Failed to run binary file"),
            Failure::DeleteBinary => joined(ERROR_PREFIX, "Failed to delete binary file"),
        }
    }
}

/// An error line followed by a blank line and the short usage text.
fn usage_error(line: String) -> (r: String)
    ensures
        r@ == usage_error_text(line@),
{
    let s = joined(line.as_str(), "\n\n");
    joined(s.as_str(), ERROR_USAGE_MESSAGE)
}

/// What the user sees when an invocation ends: the stream written to, the text
/// written (a line of its own, if any), and the exit status.
pub struct Ending {
    pub to_stderr: bool,
    pub text: Option<Seq<char>>,
    pub status: i32,
}

/// How an invocation ends.
pub enum Exit {
    /// Print the help text on standard output and end with the given status.
    Help(i32),
    /// Print the version line on standard output and end with status 0.
    Version,
    /// Report the failure on standard error and end with status 1.
    Fail(Failure),
    /// Print nothing and end with the given status.
    Status(i32),
}

impl View for Exit {
    type V = Ending;

    open spec fn view(&self) -> Ending {
        match self {
            Exit::Help(s) => help_ending(*s),
            Exit::Version => version_ending(),
            Exit::Fail(f) => error_ending(f.message_spec()),
            Exit::Status(s) => Ending { to_stderr: false, text: None, status: *s },
        }
    }
}

/// The ending that reports an error with the given text.
pub open spec fn error_ending(text: Seq<char>) -> Ending {
    Ending { to_stderr: true, text: Some(text), status: 1 }
}

/// The ending that prints the help text and ends with `status`.
pub open spec fn help_ending(status: i32) -> Ending {
    Ending { to_stderr: false, text: Some(HELP_MESSAGE@), status }
}

/// The ending that prints the version line.
pub open spec fn version_ending() -> Ending {
    Ending { to_stderr: false, text: Some(VERSION@), status: 0 }
}

impl Exit {
    /// The exit status of the process.
    pub fn status(&self) -> (r: i32)
        ensures
            r == self@.status,
    {
        match self {
            Exit::Help(s) => *s,
            Exit::Version => 0,
            Exit::Fail(_) => 1,
            Exit::Status(s) => *s,
        }
    }

    /// Whether the text goes to standard error rather than standard output.
    pub fn to_stderr(&self) -> (r: bool)
        ensures
            r == self@.to_stderr,
    {
        matches!(self, Exit::Fail(_))
    }

    /// The text to print, if any.
    pub fn text(&self) -> (r: Option<String>)
        ensures
            r is Some == self@.text is Some,
            r is Some ==> r->0@ == self@.text->0,
    {
        match self {
            Exit::Help(_) => Some(String::from_str(HELP_MESSAGE)),
            Exit::Version => Some(String::from_str(VERSION)),
            Exit::Fail(f) => Some(f.message()),
            Exit::Status(_) => None,
        }
    }
}

} // verus!
