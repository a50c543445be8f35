use vstd::prelude::*;
use crate::language::Language;
use crate::outcome::{
    Ending, Error, Exit, Failure, error_ending, help_ending, unsupported_language_text,
    unexpected_argument_text, version_ending,
};
use crate::text::{ERROR_PREFIX, contains, lemma_contains_middle, same_text, usage_error_text};

verus! {

/// Report of a missing or empty source file argument.
pub const NO_INPUT_FILE: &'static str = "\x1b[1;31merror:\x1b[0m No input file";

/// A request to compile and run one source file.
pub struct Invocation {
    pub language: Language,
    pub file: String,
}

impl View for Invocation {
    type V = (Language, Seq<char>);

    open spec fn view(&self) -> (Language, Seq<char>) {
        (self.language, self.file@)
    }
}

/// The characters of an optional argument.
pub open spec fn arg_view(a: Option<String>) -> Option<Seq<char>> {
    match a {
        Some(s) => Some(s@),
        None => None,
    }
}

/// The language that a first argument names, if any.
pub open spec fn language_of(a: Seq<char>) -> Option<Language> {
    if a == "c"@ {
        Some(Language::C)
    } else if a == "c++"@ || a == "cpp"@ {
        Some(Language::Cpp)
    } else {
        None
    }
}

/// How a first argument that starts with `-` ends the invocation.
pub open spec fn option_ending(a: Seq<char>) -> Ending {
    if a == "--help"@ || a == "-h"@ {
        help_ending(0)
    } else if a == "--version"@ || a == "-v"@ {
        version_ending()
    } else {
        error_ending(unexpected_argument_text(a))
    }
}

/// How an absent (`present` false) or empty argument ends the invocation: with
/// the given report, or with the help text when there is none.
pub open spec fn missing_ending(present: bool, err: Option<Error>) -> Ending {
    match err {
        Some(e) => error_ending(usage_error_text(e.error@)),
        None => help_ending(if present { 1 } else { 0 }),
    }
}

/// The meaning of the first two arguments of the command line.
pub open spec fn parse_spec(first: Option<Seq<char>>, second: Option<Seq<char>>) -> Result<
    (Language, Seq<char>),
    Ending,
> {
    match first {
        None => Err(help_ending(0)),
        Some(a) => if a.len() == 0 {
            Err(help_ending(1))
        } else if a[0] == '-' {
            Err(option_ending(a))
        } else {
            match language_of(a) {
                None => Err(error_ending(unsupported_language_text(a))),
                Some(l) => match second {
                    Some(f) if f.len() > 0 => Ok((l, f)),
                    _ => Err(error_ending(usage_error_text(NO_INPUT_FILE@))),
                },
            }
        },
    }
}

/// The argument itself when it is present and not empty; otherwise how the
/// invocation ends: with the report of `err`, or with the help text.
pub fn get_args(args: Option<String>, err: Option<Error>) -> (r: Result<String, Exit>)
    ensures
        r is Ok <==> (args is Some && args->0@.len() > 0),
        r is Ok ==> r->Ok_0@ == args->0@,
        r is Err ==> r->Err_0@ == missing_ending(args is Some, err),
{
    let present = args.is_some();
    match args {
        Some(arg) if arg.as_str().unicode_len() > 0 => Ok(arg),
        _ => match err {
            Some(e) => Err(Exit::Fail(Failure::MissingArgument(e))),
            None => Err(Exit::Help(if present { 1 } else { 0 })),
        },
    }
}

/// The language that a first argument names, if any.
pub fn parse_language(a: &str) -> (r: Option<Language>)
    ensures
        r == language_of(a@),
{
    if same_text(a, "c") {
        Some(Language::C)
    } else if same_text(a, "c++") || same_text(a, "cpp") {
        Some(Language::Cpp)
    } else {
        None
    }
}

/// Reads the first two arguments of the command line (program name excluded):
/// either a request to compile and run, or how the invocation ends.
pub fn parse_args(first: Option<String>, second: Option<String>) -> (r: Result<Invocation, Exit>)
    ensures
        match r {
            Ok(i) => parse_spec(arg_view(first), arg_view(second)) == Ok::<_, Ending>(i@),
            Err(e) => parse_spec(arg_view(first), arg_view(second)) == Err::<(Language, Seq<char>), _>(e@),
        },
{
    let ghost second_view = arg_view(second);
    let arg = match get_args(first, None) {
        Ok(a) => a,
        Err(e) => return Err(e),
    };
    if arg.as_str().get_char(0) == '-' {
        let e = if same_text(arg.as_str(), "--help") || same_text(arg.as_str(), "-h") {
            Exit::Help(0)
        } else if same_text(arg.as_str(), "--version") || same_text(arg.as_str(), "-v") {
            Exit::Version
        } else {
            Exit::Fail(Failure::UnexpectedArgument(arg))
        };
        return Err(e);
    }
    let language = match parse_language(arg.as_str()) {
        Some(l) => l,
        None => return Err(Exit::Fail(Failure::UnsupportedLanguage(arg))),
    };
    match get_args(second, Some(Error::new(NO_INPUT_FILE))) {
        Ok(file) => Ok(Invocation { language, file }),
        Err(e) => Err(e),
    }
}

/// A first argument that neither starts with `-` nor names a supported language
/// ends the invocation with status 1, on standard error, with a report that
/// holds the argument.
pub proof fn unsupported_language_is_reported(a: Seq<char>, second: Option<Seq<char>>)
    requires
        a.len() > 0,
        a[0] != '-',
        language_of(a) is None,
    ensures
        parse_spec(Some(a), second) is Err,
        parse_spec(Some(a), second)->Err_0.status == 1,
        parse_spec(Some(a), second)->Err_0.to_stderr,
        parse_spec(Some(a), second)->Err_0.text is Some,
        contains(parse_spec(Some(a), second)->Err_0.text->0, a),
{
    let pre = ERROR_PREFIX@ + "Unsupported language:"@ + " "@;
    let post = "\n\n"@ + crate::text::ERROR_USAGE_MESSAGE@;
    lemma_contains_middle(pre, a, post);
    assert(unsupported_language_text(a) =~= pre + a + post);
}

} // verus!
