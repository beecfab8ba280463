//! Path text: joining path segments, the artifact file name taken from a
//! download URL, and the scratch directory used for one run.

use vstd::prelude::*;
use vstd::string::*;

verus! {

/// Two path segments joined with a single separator.
pub open spec fn join_of(a: Seq<char>, b: Seq<char>) -> Seq<char> {
    a + seq!['/'] + b
}

/// `a` and `b` joined with a single path separator.
pub fn path_join(a: &str, b: &str) -> (r: String)
    ensures
        r@ == join_of(a@, b@),
{
    let mut s = a.to_owned();
    s.append("/");
    s.append(b);
    proof {
        reveal_strlit("/");
        assert(s@ =~= join_of(a@, b@));
    }
    s
}

/// The index just after the last occurrence of `c` in `s`, or 0 when `s`
/// holds none.
pub open spec fn cut_of(s: Seq<char>, c: char) -> int
    decreases s.len(),
{
    if s.len() == 0 {
        0
    } else if s.last() == c {
        s.len() as int
    } else {
        cut_of(s.drop_last(), c)
    }
}

/// The text after the last '/' in `s`: the whole of `s` when it holds no
/// '/', and empty when `s` ends with one.
pub open spec fn file_name_of(s: Seq<char>) -> Seq<char> {
    s.subrange(cut_of(s, '/'), s.len() as int)
}

/// The index just after the last occurrence of `c` in `s`, or 0 when `s`
/// holds none.
pub fn cut_index(s: &str, c: char) -> (r: usize)
    ensures
        r == cut_of(s@, c),
        r <= s@.len(),
{
    let n = s.unicode_len();
    let mut cut: usize = 0;
    let mut j: usize = 0;
    while j < n
        invariant
            n == s@.len(),
            j <= n,
            cut == cut_of(s@.take(j as int), c),
            cut <= j,
        decreases n - j,
    {
        proof {
            assert(s@.take(j + 1).drop_last() =~= s@.take(j as int));
            assert(s@.take(j + 1).last() == s@[j as int]);
        }
        if s.get_char(j) == c {
            cut = j + 1;
        }
        j = j + 1;
    }
    proof {
        assert(s@.take(n as int) =~= s@);
    }
    cut
}

/// The file name the artifact keeps: the final segment of its download URL.
pub fn artifact_file_name(url: &str) -> (r: String)
    ensures
        r@ == file_name_of(url@),
{
    let n = url.unicode_len();
    let cut = cut_index(url, '/');
    let tail = url.substring_char(cut, n);
    let r = tail.to_owned();
    proof {
        assert(r@ =~= file_name_of(url@));
    }
    r
}

/// The per-run scratch directory: a fixed name under the system temp root.
/// It owns the downloaded artifact and the extraction tree for one run and
/// is removed, best effort, when the run ends.
pub struct TmpDir {
    pub path: String,
}

impl TmpDir {
    /// The scratch path for the given temp root.
    pub fn new(temp_root: &str) -> (t: TmpDir)
        ensures
            t.path@ == join_of(temp_root@, "cursorup_temp"@),
    {
        TmpDir { path: path_join(temp_root, "cursorup_temp") }
    }
}

} // verus!
