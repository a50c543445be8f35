use clrun::cli::Invocation;
use clrun::language::Language;
use clrun::session::{compile_args, Home, Launch, Phase, Session, Step, OUTPUT_FLAG};
use clrun::workspace::{binary_path, join_path, workspace_dir};

fn start(language: Language, file: &str) -> Session {
    Session::new(Invocation { language, file: file.to_string() })
}

fn finish_of(step: Step) -> (i32, bool, Option<String>) {
    match step {
        Step::Finish(e) => (e.status(), e.to_stderr(), e.text()),
        _ => panic!("expected the end of the invocation"),
    }
}

fn path_of(step: Step) -> String {
    match step {
        Step::CreateDir(p) | Step::Run(p) | Step::Delete(p) => p,
        _ => panic!("expected a step on a path"),
    }
}

fn ready(language: Language, file: &str) -> Session {
    let mut s = start(language, file);
    assert_eq!(path_of(s.locate(Home::Found("/home/u".to_string()))), "/home/u/.clrun/build");
    s
}

#[test]
fn paths_are_joined() {
    assert_eq!(join_path("/home/u", ".clrun"), "/home/u/.clrun");
    assert_eq!(join_path("/home/u/", ".clrun"), "/home/u/.clrun");
    assert_eq!(join_path("", ".clrun"), ".clrun");
    assert_eq!(workspace_dir("/home/u"), "/home/u/.clrun/build");
    assert_eq!(workspace_dir("/"), "/.clrun/build");
    assert_eq!(binary_path("/home/u/.clrun/build"), "/home/u/.clrun/build/main");
}

#[test]
fn valid_c_program_runs_and_is_removed() {
    let mut s = ready(Language::C, "hello.c");
    match s.prepared(true) {
        Step::Compile { compiler, args } => {
            assert_eq!(compiler, "clang");
            assert_eq!(args, vec!["hello.c", "-o", "/home/u/.clrun/build/main"]);
        }
        _ => panic!("expected the compiler"),
    }
    assert_eq!(path_of(s.compiled(Launch::Exited(true))), "/home/u/.clrun/build/main");
    assert_eq!(s.phase(), Phase::Running);
    assert_eq!(path_of(s.ran(Launch::Exited(true))), "/home/u/.clrun/build/main");
    assert_eq!(s.phase(), Phase::Cleaning(Launch::Exited(true)));
    assert_eq!(finish_of(s.cleaned(true)), (0, false, None));
    assert_eq!(s.phase(), Phase::Done);
}

#[test]
fn cpp_compile_error_fails_without_running() {
    let mut s = ready(Language::Cpp, "broken.cpp");
    match s.prepared(true) {
        Step::Compile { compiler, .. } => assert_eq!(compiler, "clang++"),
        _ => panic!("expected the compiler"),
    }
    let (status, to_stderr, text) = finish_of(s.compiled(Launch::Exited(false)));
    assert_eq!(status, 1);
    assert!(to_stderr);
    assert_eq!(text, Some("\x1b[1;31merror:\x1b[0m Compile failed".to_string()));
    assert_eq!(s.phase(), Phase::Done);
}

#[test]
fn failing_program_gives_status_one() {
    let mut s = ready(Language::C, "exit3.c");
    s.prepared(true);
    s.compiled(Launch::Exited(true));
    assert_eq!(path_of(s.ran(Launch::Exited(false))), "/home/u/.clrun/build/main");
    assert_eq!(finish_of(s.cleaned(true)), (1, false, None));
}

#[test]
fn workspace_is_the_same_on_every_run() {
    let mut a = start(Language::C, "a.c");
    let mut b = start(Language::Cpp, "b.cpp");
    let pa = path_of(a.locate(Home::Found("/home/u".to_string())));
    let pb = path_of(b.locate(Home::Found("/home/u".to_string())));
    assert_eq!(pa, "/home/u/.clrun/build");
    assert_eq!(pa, pb);
}

#[test]
fn missing_home_fails() {
    let mut s = start(Language::C, "a.c");
    let (status, to_stderr, text) = finish_of(s.locate(Home::Missing));
    assert_eq!((status, to_stderr), (1, true));
    assert_eq!(text, Some("\x1b[1;31merror:\x1b[0m No home directory".to_string()));
    assert_eq!(s.phase(), Phase::Done);
}

#[test]
fn non_unicode_home_fails() {
    let mut s = start(Language::C, "a.c");
    let (status, _, text) = finish_of(s.locate(Home::NotUnicode));
    assert_eq!(status, 1);
    assert_eq!(text, Some("\x1b[1;31merror:\x1b[0m Path is not valid UTF-8".to_string()));
}

#[test]
fn workspace_creation_failure_fails() {
    let mut s = ready(Language::C, "a.c");
    let (status, _, text) = finish_of(s.prepared(false));
    assert_eq!(status, 1);
    assert_eq!(
        text,
        Some("\x1b[1;31merror:\x1b[0m Failed to create .clrun directory".to_string())
    );
}

#[test]
fn missing_compiler_fails() {
    let mut s = ready(Language::Cpp, "a.cpp");
    s.prepared(true);
    let (status, _, text) = finish_of(s.compiled(Launch::NotStarted));
    assert_eq!(status, 1);
    assert_eq!(text, Some("\x1b[1;31merror:\x1b[0m Failed to run clang++".to_string()));
}

#[test]
fn binary_that_cannot_start_is_still_removed() {
    let mut s = ready(Language::C, "a.c");
    s.prepared(true);
    s.compiled(Launch::Exited(true));
    assert_eq!(path_of(s.ran(Launch::NotStarted)), "/home/u/.clrun/build/main");
    let (status, _, text) = finish_of(s.cleaned(true));
    assert_eq!(status, 1);
    assert_eq!(text, Some("\x1b[1;31merror:\x1b[0m Failed to run binary file".to_string()));
}

#[test]
fn removal_failure_fails() {
    let mut s = ready(Language::C, "a.c");
    s.prepared(true);
    s.compiled(Launch::Exited(true));
    s.ran(Launch::Exited(true));
    let (status, to_stderr, text) = finish_of(s.cleaned(false));
    assert_eq!((status, to_stderr), (1, true));
    assert_eq!(
        text,
        Some("\x1b[1;31merror:\x1b[0m Failed to delete binary file".to_string())
    );
}

#[test]
fn binary_that_cannot_start_nor_be_removed_reports_the_launch() {
    let mut s = ready(Language::C, "a.c");
    s.prepared(true);
    s.compiled(Launch::Exited(true));
    assert_eq!(path_of(s.ran(Launch::NotStarted)), "/home/u/.clrun/build/main");
    let (status, to_stderr, text) = finish_of(s.cleaned(false));
    assert_eq!((status, to_stderr), (1, true));
    assert_eq!(text, Some("\x1b[1;31merror:\x1b[0m Failed to run binary file".to_string()));
}

#[test]
fn compiler_arguments() {
    assert_eq!(OUTPUT_FLAG, "-o");
    let args = compile_args(&"x.cpp".to_string(), &"/b/main".to_string());
    assert_eq!(args, vec!["x.cpp", "-o", "/b/main"]);
}
