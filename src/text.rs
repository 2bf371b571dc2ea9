//! Small operations on text that command output and user answers need.
use vstd::prelude::*;

verus! {

/// Whether `c` ends a line.
pub open spec fn is_line_end(c: char) -> bool {
    c == '\r' || c == '\n'
}

/// `s` without the carriage returns and line feeds at its end.
pub open spec fn trim_line_end(s: Seq<char>) -> Seq<char>
    decreases s.len(),
{
    if s.len() > 0 && is_line_end(s.last()) {
        trim_line_end(s.drop_last())
    } else {
        s
    }
}

/// The number of characters of `s` that remain once carriage returns and line
/// feeds are trimmed from its end.
pub fn trimmed_line_len(s: &str) -> (n: usize)
    ensures
        n <= s@.len(),
        s@.subrange(0, n as int) == trim_line_end(s@),
{
    let mut n: usize = s.unicode_len();
    assert(s@.subrange(0, n as int) =~= s@);
    loop
        invariant
            n <= s@.len(),
            trim_line_end(s@.subrange(0, n as int)) == trim_line_end(s@),
        ensures
            n <= s@.len(),
            s@.subrange(0, n as int) == trim_line_end(s@),
        decreases n,
    {
        if n == 0 {
            break;
        }
        let c = s.get_char(n - 1);
        if c != '\r' && c != '\n' {
            break;
        }
        assert(s@.subrange(0, n as int).drop_last() =~= s@.subrange(0, n - 1));
        n = n - 1;
    }
    n
}

/// `s` without the carriage returns and line feeds at its end.
pub fn trim_line_end_of(s: &str) -> (r: String)
    ensures
        r@ == trim_line_end(s@),
{
    let n = trimmed_line_len(s);
    String::from_str(s.substring_char(0, n))
}

} // verus!
