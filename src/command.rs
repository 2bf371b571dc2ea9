//! External version-control commands, described as plain values. The caller
//! runs them and reports only whether they exited with success.
use vstd::prelude::*;

verus! {

/// The version-control executable that every command runs.
pub const GIT: &'static str = "git";

/// One run of an external program in a working directory.
#[derive(Debug, Clone)]
pub struct Invocation {
    pub program: String,
    pub args: Vec<String>,
    pub dir: String,
    /// Whether the program's standard output is discarded.
    pub discard_stdout: bool,
}

/// The characters of each string.
pub open spec fn string_views(v: Seq<String>) -> Seq<Seq<char>> {
    v.map_values(|s: String| s@)
}

/// A list of owned strings with the characters of the given ones, in order.
pub fn owned_strings(words: &[&str]) -> (r: Vec<String>)
    ensures
        string_views(r@) == words@.map_values(|w: &str| w@),
{
    let mut r: Vec<String> = Vec::new();
    let mut i: usize = 0;
    while i < words.len()
        invariant
            i <= words@.len(),
            string_views(r@) == words@.subrange(0, i as int).map_values(|w: &str| w@),
        decreases words@.len() - i,
    {
        let ghost before = r@;
        let w: &str = words[i];
        r.push(String::from_str(w));
        assert(r@ == before.push(r@.last()));
        assert(string_views(r@) =~= string_views(before).push(w@));
        i = i + 1;
        assert(words@.subrange(0, i as int) =~= words@.subrange(0, i - 1).push(w));
        assert(string_views(r@) =~= words@.subrange(0, i as int).map_values(|w: &str| w@));
    }
    assert(words@.subrange(0, words@.len() as int) =~= words@);
    r
}

/// A git command with the given arguments, run in `dir`.
pub fn git_command(args: &[&str], dir: &str, discard_stdout: bool) -> (r: Invocation)
    ensures
        r.program@ == GIT@,
        string_views(r.args@) == args@.map_values(|w: &str| w@),
        r.dir@ == dir@,
        r.discard_stdout == discard_stdout,
{
    Invocation {
        program: String::from_str(GIT),
        args: owned_strings(args),
        dir: String::from_str(dir),
        discard_stdout,
    }
}

} // verus!
