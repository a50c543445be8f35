use vstd::prelude::*;

verus! {

/// `comp` appended to `base` as a path component: a `/` goes between them
/// unless `base` is empty or already ends with one.
pub open spec fn join_spec(base: Seq<char>, comp: Seq<char>) -> Seq<char> {
    if base.len() == 0 || base.last() == '/' {
        base + comp
    } else {
        base + "/"@ + comp
    }
}

/// The build directory under a home directory: `<home>/.clrun/build`.
pub open spec fn workspace_spec(home: Seq<char>) -> Seq<char> {
    join_spec(join_spec(home, ".clrun"@), "build"@)
}

/// The compiled binary inside the build directory: `<workspace>/main`.
pub open spec fn binary_spec(workspace: Seq<char>) -> Seq<char> {
    join_spec(workspace, "main"@)
}

/// `comp` appended to `base` as a path component.
pub fn join_path(base: &str, comp: &str) -> (r: String)
    ensures
        r@ == join_spec(base@, comp@),
{
    let n = base.unicode_len();
    let mut s = String::from_str(base);
    if n > 0 && base.get_char(n - 1) != '/' {
        s.append("/");
    }
    s.append(comp);
    s
}

/// The build directory under the given home directory.
pub fn workspace_dir(home: &str) -> (r: String)
    ensures
        r@ == workspace_spec(home@),
{
    let dot = join_path(home, ".clrun");
    join_path(dot.as_str(), "build")
}

/// Where the compiled binary is written inside the build directory.
pub fn binary_path(workspace: &str) -> (r: String)
    ensures
        r@ == binary_spec(workspace@),
{
    join_path(workspace, "main")
}

} // verus!
