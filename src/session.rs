use vstd::prelude::*;
use crate::cli::Invocation;
use crate::language::Language;
use crate::outcome::{Ending, Exit, Failure, error_ending};
use crate::text::error_text;
use crate::workspace::{binary_path, binary_spec, workspace_dir, workspace_spec};

verus! {

/// What was found of the user's home directory.
pub enum Home {
    /// There is none.
    Missing,
    /// There is one, but its path is not valid Unicode text.
    NotUnicode,
    /// Its path.
    Found(String),
}

/// The home directory as text: `None` when missing, `Some(None)` when it is not
/// valid text.
pub open spec fn home_view(h: Home) -> Option<Option<Seq<char>>> {
    match h {
        Home::Missing => None,
        Home::NotUnicode => Some(None),
        Home::Found(s) => Some(Some(s@)),
    }
}

/// What came of starting a process and waiting for it.
#[derive(Clone, Copy, Debug, PartialEq, Eq, Structural)]
pub enum Launch {
    /// The process could not be started.
    NotStarted,
    /// The process ran and ended; `true` when it reported success.
    Exited(bool),
}

/// How far a session has come.
#[derive(Clone, Copy, Debug, PartialEq, Eq, Structural)]
pub enum Phase {
    /// Waiting for the home directory.
    Start,
    /// Waiting for the build directory to be created.
    Preparing,
    /// Waiting for the compiler.
    Compiling,
    /// Waiting for the compiled program.
    Running,
    /// Waiting for the binary to be removed; holds how the program went.
    Cleaning(Launch),
    /// The invocation has ended.
    Done,
}

/// The next thing the caller is asked to do.
pub enum Step {
    /// Create this directory and any missing parents.
    CreateDir(String),
    /// Run `compiler` with these arguments, in order: `<source> -o <binary>`.
    Compile { compiler: &'static str, args: Vec<String> },
    /// Run this binary with no arguments.
    Run(String),
    /// Remove this file.
    Delete(String),
    /// End the process as described.
    Finish(Exit),
}

/// A step with its text as characters.
pub enum Order {
    CreateDir(Seq<char>),
    Compile(Seq<char>, Seq<Seq<char>>),
    Run(Seq<char>),
    Delete(Seq<char>),
    Finish(Ending),
}

impl View for Step {
    type V = Order;

    open spec fn view(&self) -> Order {
        match self {
            Step::CreateDir(d) => Order::CreateDir(d@),
            Step::Compile { compiler, args } => Order::Compile(
                compiler@,
                args@.map_values(|a: String| a@),
            ),
            Step::Run(b) => Order::Run(b@),
            Step::Delete(b) => Order::Delete(b@),
            Step::Finish(e) => Order::Finish(e@),
        }
    }
}

/// The state of a session, with its text as characters.
pub struct SessionView {
    pub language: Language,
    pub source: Seq<char>,
    pub workspace: Seq<char>,
    pub binary: Seq<char>,
    pub phase: Phase,
}

/// The decisions of one invocation that compiles and runs a source file. The
/// caller performs each step that a method returns and hands its outcome to the
/// method for the phase that follows.
pub struct Session {
    language: Language,
    source: String,
    workspace: String,
    binary: String,
    phase: Phase,
}

impl View for Session {
    type V = SessionView;

    closed spec fn view(&self) -> SessionView {
        SessionView {
            language: self.language,
            source: self.source@,
            workspace: self.workspace@,
            binary: self.binary@,
            phase: self.phase,
        }
    }
}

/// The compiler's flag that names the file to write.
pub const OUTPUT_FLAG: &'static str = "-o";

/// The compiler's arguments: the source file, then the output flag and the binary.
pub open spec fn compile_args_spec(source: Seq<char>, binary: Seq<char>) -> Seq<Seq<char>> {
    seq![source, OUTPUT_FLAG@, binary]
}

/// The compiler's arguments for the given source file and binary.
pub fn compile_args(source: &String, binary: &String) -> (r: Vec<String>)
    ensures
        r@.map_values(|a: String| a@) == compile_args_spec(source@, binary@),
{
    let mut r: Vec<String> = Vec::new();
    r.push(source.clone());
    r.push(String::from_str(OUTPUT_FLAG));
    r.push(binary.clone());
    assert(r@.map_values(|a: String| a@) =~= compile_args_spec(source@, binary@));
    r
}

/// Ending with an error line of the given text.
pub open spec fn error_order(msg: Seq<char>) -> Order {
    Order::Finish(error_ending(error_text(msg)))
}

/// The session after `s` with only its phase changed.
pub open spec fn with_phase(s: SessionView, p: Phase) -> SessionView {
    SessionView { phase: p, ..s }
}

/// What follows the lookup of the home directory.
pub open spec fn locate_spec(s: SessionView, home: Option<Option<Seq<char>>>) -> (
    SessionView,
    Order,
) {
    match home {
        None => (with_phase(s, Phase::Done), error_order("No home directory"@)),
        Some(None) => (with_phase(s, Phase::Done), error_order("Path is not valid UTF-8"@)),
        Some(Some(h)) => {
            let w = workspace_spec(h);
            (
                SessionView { workspace: w, binary: binary_spec(w), phase: Phase::Preparing, ..s },
                Order::CreateDir(w),
            )
        },
    }
}

/// What follows the attempt to create the build directory.
pub open spec fn prepared_spec(s: SessionView, created: bool) -> (SessionView, Order) {
    if created {
        (
            with_phase(s, Phase::Compiling),
            Order::Compile(s.language.compiler_spec(), compile_args_spec(s.source, s.binary)),
        )
    } else {
        (with_phase(s, Phase::Done), error_order("Failed to create .clrun directory"@))
    }
}

/// What follows the compiler's run.
pub open spec fn compiled_spec(s: SessionView, result: Launch) -> (SessionView, Order) {
    match result {
        Launch::NotStarted => (
            with_phase(s, Phase::Done),
            error_order(("Failed to run"@ + " "@ + s.language.compiler_spec())),
        ),
        Launch::Exited(false) => (with_phase(s, Phase::Done), error_order("Compile failed"@)),
        Launch::Exited(true) => (with_phase(s, Phase::Running), Order::Run(s.binary)),
    }
}

/// What follows the program's run: whatever happened, the binary is removed.
pub open spec fn ran_spec(s: SessionView, result: Launch) -> (SessionView, Order) {
    (with_phase(s, Phase::Cleaning(result)), Order::Delete(s.binary))
}

/// How the invocation ends once removal of the binary was attempted, after the
/// program went as `result` says. A program that could not be started is
/// reported as such, whether or not its binary could be removed.
pub open spec fn cleaned_spec(result: Launch, removed: bool) -> Order {
    match result {
        Launch::NotStarted => error_order("Failed to run binary file"@),
        Launch::Exited(ok) => if !removed {
            error_order("Failed to delete binary file"@)
        } else {
            Order::Finish(Ending { to_stderr: false, text: None, status: if ok { 0 } else { 1 } })
        },
    }
}

impl Session {
    /// The binary's path follows from the build directory once it is known.
    pub closed spec fn wf(&self) -> bool {
        !(self.phase is Start || self.phase is Done) ==> self.binary@ == binary_spec(self.workspace@)
    }

    /// A session for the given request, waiting for the home directory.
    pub fn new(invocation: Invocation) -> (r: Session)
        ensures
            r.wf(),
            r@.phase == Phase::Start,
            r@.language == invocation.language,
            r@.source == invocation.file@,
    {
        Session {
            language: invocation.language,
            source: invocation.file,
            workspace: String::new(),
            binary: String::new(),
            phase: Phase::Start,
        }
    }

    /// Takes the home directory; asks for the build directory under it.
    pub fn locate(&mut self, home: Home) -> (r: Step)
        requires
            old(self).wf(),
            old(self)@.phase == Phase::Start,
        ensures
            final(self).wf(),
            (final(self)@, r@) == locate_spec(old(self)@, home_view(home)),
    {
        match home {
            Home::Missing => {
                self.phase = Phase::Done;
                Step::Finish(Exit::Fail(Failure::NoHomeDirectory))
            },
            Home::NotUnicode => {
                self.phase = Phase::Done;
                Step::Finish(Exit::Fail(Failure::PathNotUtf8))
            },
            Home::Found(h) => {
                self.workspace = workspace_dir(h.as_str());
                self.binary = binary_path(self.workspace.as_str());
                self.phase = Phase::Preparing;
                Step::CreateDir(self.workspace.clone())
            },
        }
    }

    /// Takes whether the build directory now exists; asks for the compiler.
    pub fn prepared(&mut self, created: bool) -> (r: Step)
        requires
            old(self).wf(),
            old(self)@.phase == Phase::Preparing,
        ensures
            final(self).wf(),
            (final(self)@, r@) == prepared_spec(old(self)@, created),
    {
        if created {
            self.phase = Phase::Compiling;
            Step::Compile {
                compiler: self.language.compiler(),
                args: compile_args(&self.source, &self.binary),
            }
        } else {
            self.phase = Phase::Done;
            Step::Finish(Exit::Fail(Failure::CreateWorkspace))
        }
    }

    /// Takes how the compiler went; asks for the program to run.
    pub fn compiled(&mut self, result: Launch) -> (r: Step)
        requires
            old(self).wf(),
            old(self)@.phase == Phase::Compiling,
        ensures
            final(self).wf(),
            (final(self)@, r@) == compiled_spec(old(self)@, result),
    {
        match result {
            Launch::NotStarted => {
                self.phase = Phase::Done;
                assert(error_text("Failed to run"@ + " "@ + self.language.compiler_spec())
                    =~= error_text("Failed to run"@) + " "@ + self.language.compiler_spec());
                Step::Finish(Exit::Fail(Failure::LaunchCompiler(self.language)))
            },
            Launch::Exited(false) => {
                self.phase = Phase::Done;
                Step::Finish(Exit::Fail(Failure::CompileFailed))
            },
            Launch::Exited(true) => {
                self.phase = Phase::Running;
                Step::Run(self.binary.clone())
            },
        }
    }

    /// Takes how the program went; asks for the binary to be removed.
    pub fn ran(&mut self, result: Launch) -> (r: Step)
        requires
            old(self).wf(),
            old(self)@.phase == Phase::Running,
        ensures
            final(self).wf(),
            (final(self)@, r@) == ran_spec(old(self)@, result),
    {
        self.phase = Phase::Cleaning(result);
        Step::Delete(self.binary.clone())
    }

    /// Takes whether the binary was removed; says how the invocation ends.
    pub fn cleaned(&mut self, removed: bool) -> (r: Step)
        requires
            old(self).wf(),
            old(self)@.phase is Cleaning,
        ensures
            final(self).wf(),
            final(self)@ == with_phase(old(self)@, Phase::Done),
            r@ == cleaned_spec(old(self)@.phase->Cleaning_0, removed),
    {
        let result = match self.phase {
            Phase::Cleaning(l) => l,
            _ => Launch::NotStarted,
        };
        self.phase = Phase::Done;
        match result {
            Launch::NotStarted => Step::Finish(Exit::Fail(Failure::LaunchBinary)),
            Launch::Exited(ok) => if !removed {
                Step::Finish(Exit::Fail(Failure::DeleteBinary))
            } else {
                Step::Finish(Exit::Status(if ok { 0 } else { 1 }))
            },
        }
    }

    /// How far the session has come.
    pub fn phase(&self) -> (r: Phase)
        ensures
            r == self@.phase,
    {
        self.phase
    }
}

/// Every session started from the same home directory asks for the same build
/// directory, `<home>/.clrun/build`, so one run's directory serves the next.
pub proof fn workspace_is_shared(a: SessionView, b: SessionView, home: Seq<char>)
    ensures
        locate_spec(a, Some(Some(home))).1 == Order::CreateDir(workspace_spec(home)),
        locate_spec(a, Some(Some(home))).1 == locate_spec(b, Some(Some(home))).1,
        locate_spec(a, Some(Some(home))).0.binary == locate_spec(b, Some(Some(home))).0.binary,
{
}

/// Once the compiler succeeds, the binary that it wrote is the one that is run and
/// then removed, however the program went.
pub proof fn compiled_binary_is_removed(s: SessionView, program: Launch)
    requires
        s.phase == Phase::Preparing,
    ensures
        ({
            let (s1, o1) = prepared_spec(s, true);
            let (s2, o2) = compiled_spec(s1, Launch::Exited(true));
            let (s3, o3) = ran_spec(s2, program);
            &&& o1 == Order::Compile(
                s.language.compiler_spec(),
                seq![s.source, OUTPUT_FLAG@, s.binary],
            )
            &&& o2 == Order::Run(s.binary)
            &&& o3 == Order::Delete(s.binary)
            &&& s3.phase == Phase::Cleaning(program)
        }),
{
}

/// When the program ran and the binary was removed, the invocation prints nothing
/// more and ends with status 0 if the program succeeded and 1 if it failed,
/// whatever status the program itself ended with.
pub proof fn program_outcome_sets_status(s: SessionView, ok: bool)
    requires
        s.phase == Phase::Running,
    ensures
        ({
            let (s1, o1) = ran_spec(s, Launch::Exited(ok));
            &&& o1 == Order::Delete(s.binary)
            &&& cleaned_spec(s1.phase->Cleaning_0, true) == Order::Finish(
                Ending { to_stderr: false, text: None, status: if ok { 0 } else { 1 } },
            )
        }),
{
}

} // verus!
