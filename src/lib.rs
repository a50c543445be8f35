//! Compile a single C or C++ source file with clang, run the binary, remove it,
//! and report the program's success as the exit status.
//!
//! The library holds every decision the tool makes: how the command line is read,
//! where the build directory and the binary live, which compiler runs, what is
//! printed, and which exit status ends each path. The caller performs the
//! process, filesystem and environment work and hands the outcomes back.
pub mod language;
pub mod text;
pub mod outcome;
pub mod cli;
pub mod workspace;
pub mod session;
