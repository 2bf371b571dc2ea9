pub mod git_directory;
pub mod managers;

use vstd::prelude::*;

verus! {

/// One repository to reconcile: where its remote lives and where its local
/// working copy is expected.
#[derive(Debug, Clone)]
pub struct Repository {
    pub uri: String,
    pub dir: String,
}

pub type Repositories = Vec<Repository>;

/// All repositories to reconcile: those of vim-plug, then zinit's, then the
/// tmux plugin manager's.
pub fn new(vim_plug: Repositories, zinit: Repositories, tpm: Repositories) -> (r: Repositories)
    ensures
        r@ == vim_plug@ + zinit@ + tpm@,
{
    let mut repos = vim_plug;
    let mut zinit = zinit;
    let mut tpm = tpm;
    repos.append(&mut zinit);
    repos.append(&mut tpm);
    repos
}

/// Why a locator names no owner and repository.
#[derive(Debug, Clone, Copy, PartialEq, Eq, Structural)]
pub enum LocatorError {
    /// The locator holds no `/` once its `.git` suffixes are removed.
    WrongNameFormat,
}

/// Whether `s` ends in `.git`.
pub open spec fn ends_with_git(s: Seq<char>) -> bool {
    s.len() >= 4 && s.subrange(s.len() - 4, s.len() as int) == seq!['.', 'g', 'i', 't']
}

/// `s` without every `.git` at its end.
pub open spec fn trim_git_suffix(s: Seq<char>) -> Seq<char>
    decreases s.len(),
{
    if ends_with_git(s) {
        trim_git_suffix(s.subrange(0, s.len() - 4))
    } else {
        s
    }
}

/// The position of the last `/` of `s`, or -1.
pub open spec fn last_slash(s: Seq<char>) -> int
    decreases s.len(),
{
    if s.len() == 0 {
        -1
    } else if s.last() == '/' {
        s.len() - 1
    } else {
        last_slash(s.drop_last())
    }
}

/// `owner/name` for a locator such as `https://host/owner/name.git`: the last
/// two `/`-separated parts once the `.git` suffixes are gone, where there are
/// two.
pub open spec fn name_with_owner(uri: Seq<char>) -> Option<Seq<char>> {
    let t = trim_git_suffix(uri);
    let j = last_slash(t);
    if j < 0 {
        None
    } else {
        let head = t.subrange(0, j);
        let k = last_slash(head);
        Some(head.subrange(k + 1, j) + seq!['/'] + t.subrange(j + 1, t.len() as int))
    }
}

proof fn lemma_last_slash_bounds(s: Seq<char>)
    ensures
        -1 <= last_slash(s) < s.len(),
        last_slash(s) >= 0 ==> s[last_slash(s)] == '/',
    decreases s.len(),
{
    if s.len() > 0 {
        lemma_last_slash_bounds(s.drop_last());
    }
}

/// The number of characters of `s` that remain once every `.git` is trimmed
/// from its end.
fn trimmed_git_len(s: &str) -> (n: usize)
    ensures
        n <= s@.len(),
        s@.subrange(0, n as int) == trim_git_suffix(s@),
{
    let mut n: usize = s.unicode_len();
    assert(s@.subrange(0, n as int) =~= s@);
    loop
        invariant
            n <= s@.len(),
            trim_git_suffix(s@.subrange(0, n as int)) == trim_git_suffix(s@),
        ensures
            n <= s@.len(),
            s@.subrange(0, n as int) == trim_git_suffix(s@),
        decreases n,
    {
        let ghost t = s@.subrange(0, n as int);
        if n < 4 {
            break;
        }
        if s.get_char(n - 4) == '.' && s.get_char(n - 3) == 'g' && s.get_char(n - 2) == 'i'
            && s.get_char(n - 1) == 't' {
            assert(t.subrange(t.len() - 4, t.len() as int) =~= seq!['.', 'g', 'i', 't']);
            assert(t.subrange(0, t.len() - 4) =~= s@.subrange(0, n - 4));
            n = n - 4;
        } else {
            assert(!ends_with_git(t)) by {
                if ends_with_git(t) {
                    let tail = t.subrange(t.len() - 4, t.len() as int);
                    assert(tail[0] == '.' && tail[1] == 'g' && tail[2] == 'i' && tail[3] == 't');
                }
            }
            break;
        }
    }
    n
}

/// The position of the last `/` among the first `end` characters of `s`.
fn last_slash_before(s: &str, end: usize) -> (r: Option<usize>)
    requires
        end <= s@.len(),
    ensures
        r matches Some(j) ==> j as int == last_slash(s@.subrange(0, end as int)),
        r is None ==> last_slash(s@.subrange(0, end as int)) == -1,
{
    let mut i: usize = end;
    while i > 0
        invariant
            i <= end <= s@.len(),
            last_slash(s@.subrange(0, end as int)) == last_slash(s@.subrange(0, i as int)),
        decreases i,
    {
        let ghost t = s@.subrange(0, i as int);
        if s.get_char(i - 1) == '/' {
            return Some(i - 1);
        }
        assert(t.drop_last() =~= s@.subrange(0, i - 1));
        i = i - 1;
    }
    None
}

impl Repository {
    /// `owner/name` of the repository, read from its locator.
    pub fn get_name_with_owner(&self) -> (r: Result<String, LocatorError>)
        ensures
            r is Ok <==> name_with_owner(self.uri@) is Some,
            r matches Ok(n) ==> name_with_owner(self.uri@) == Some(n@),
    {
        let s = self.uri.as_str();
        let n = trimmed_git_len(s);
        let ghost t = s@.subrange(0, n as int);
        match last_slash_before(s, n) {
            None => Err(LocatorError::WrongNameFormat),
            Some(j) => {
                proof {
                    lemma_last_slash_bounds(t);
                    assert(t.subrange(0, j as int) =~= s@.subrange(0, j as int));
                    lemma_last_slash_bounds(t.subrange(0, j as int));
                }
                let start: usize = match last_slash_before(s, j) {
                    Some(k) => k + 1,
                    None => 0,
                };
                let mut r = String::from_str(s.substring_char(start, j));
                r.append("/");
                r.append(s.substring_char(j + 1, n));
                proof {
                    reveal_strlit("/");
                    let head = t.subrange(0, j as int);
                    assert(head.subrange(start as int, j as int) =~= s@.subrange(start as int, j as int));
                    assert(t.subrange(j + 1, t.len() as int) =~= s@.subrange(j + 1, n as int));
                }
                Ok(r)
            },
        }
    }
}

/// The search terms ` repo:owner/name` of the repositories whose locators
/// name an owner and a repository, in order; the others are skipped.
pub open spec fn search_query(repos: Seq<Repository>) -> Seq<char>
    decreases repos.len(),
{
    if repos.len() == 0 {
        Seq::empty()
    } else {
        let rest = search_query(repos.drop_last());
        match name_with_owner(repos.last().uri@) {
            Some(n) => rest + " repo:"@ + n,
            None => rest,
        }
    }
}

/// Builds the search terms that select the repositories on the hosting service.
pub fn convert_query(repos: &Vec<Repository>) -> (r: String)
    ensures
        r@ == search_query(repos@),
{
    let mut query = String::new();
    let mut i: usize = 0;
    while i < repos.len()
        invariant
            i <= repos@.len(),
            query@ == search_query(repos@.subrange(0, i as int)),
        decreases repos@.len() - i,
    {
        assert(repos@.subrange(0, i + 1).drop_last() =~= repos@.subrange(0, i as int));
        match repos[i].get_name_with_owner() {
            Ok(name) => {
                query.append(" repo:");
                query.append(name.as_str());
            },
            Err(_) => {},
        }
        i = i + 1;
    }
    assert(repos@.subrange(0, repos@.len() as int) =~= repos@);
    query
}

} // verus!
