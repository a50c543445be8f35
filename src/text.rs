use vstd::prelude::*;

verus! {

/// The program name and version printed by `--version`.
pub const VERSION: &'static str = "clrun 0.1.0";

/// Printed by `--help`, and when no argument is given at all.
pub const HELP_MESSAGE: &'static str = "Clang/Clang++ Runner

Usage:
  clrun [options]
  clrun <language> <filename>

Languages:
  c         Compile and run as a C program
  cpp       Compile and run as a C++ program
  c++       Alias for cpp

Options:
  -h, --help       Show this help message
  -v, --version    Show version information";

/// Appended to every message about a malformed command line.
pub const ERROR_USAGE_MESSAGE: &'static str =
    "Usage:\n  clrun [options]\n  clrun <language> <filename>\n\nFor more information, try '--help'.";

/// Highlighted tag that starts every error message.
pub const ERROR_PREFIX: &'static str = "\x1b[1;31merror:\x1b[0m ";

/// An error line: the highlighted tag followed by the text.
pub open spec fn error_text(msg: Seq<char>) -> Seq<char> {
    ERROR_PREFIX@ + msg
}

/// A usage error: the error line, a blank line, then the short usage text.
pub open spec fn usage_error_text(line: Seq<char>) -> Seq<char> {
    line + "\n\n"@ + ERROR_USAGE_MESSAGE@
}

/// `needle` occurs somewhere in `hay` as a contiguous run of characters.
pub open spec fn contains(hay: Seq<char>, needle: Seq<char>) -> bool {
    exists|i: int|
        0 <= i && i + needle.len() <= hay.len() && #[trigger] hay.subrange(i, i + needle.len())
            == needle
}

/// `a + b + c` contains `b`.
pub proof fn lemma_contains_middle(a: Seq<char>, b: Seq<char>, c: Seq<char>)
    ensures
        contains(a + b + c, b),
{
    let s = a + b + c;
    assert(s.subrange(a.len() as int, (a.len() + b.len()) as int) =~= b);
}

/// Whether two strings hold the same characters.
pub fn same_text(a: &str, b: &str) -> (r: bool)
    ensures
        r == (a@ == b@),
{
    let n = a.unicode_len();
    if n != b.unicode_len() {
        return false;
    }
    let mut i: usize = 0;
    while i < n
        invariant
            n == a@.len(),
            n == b@.len(),
            i <= n,
            forall|j: int| 0 <= j < i ==> a@[j] == b@[j],
        decreases n - i,
    {
        if a.get_char(i) != b.get_char(i) {
            return false;
        }
        i += 1;
    }
    assert(a@ =~= b@);
    true
}

/// Concatenation of a string and a string slice into a new string.
pub fn joined(a: &str, b: &str) -> (r: String)
    ensures
        r@ == a@ + b@,
{
    let mut s = String::from_str(a);
    s.append(b);
    s
}

} // verus!
