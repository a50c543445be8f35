use vstd::prelude::*;

verus! {

/// The source language of the file to compile.
#[derive(Clone, Copy, Debug, PartialEq, Eq, Structural)]
pub enum Language {
    C,
    Cpp,
}

impl Language {
    /// Name of the compiler frontend for this language, as found on the search path.
    pub open spec fn compiler_spec(self) -> Seq<char> {
        match self {
            Language::C => "clang"@,
            Language::Cpp => "clang++"@,
        }
    }

    /// The compiler frontend that builds this language.
    pub fn compiler(&self) -> (r: &'static str)
        ensures
            r@ == self.compiler_spec(),
    {
        match self {
            Language::C => "clang",
            Language::Cpp => "clang++",
        }
    }
}

} // verus!
