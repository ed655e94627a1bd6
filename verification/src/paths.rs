//! Path arithmetic for the load-file action: extracting a selected file's
//! own name and building the destination path inside the document directory.

use vstd::prelude::*;

verus! {

/// `name` placed inside `dir`: the two joined with a `/` separator unless
/// `dir` is empty or already ends in one.
pub open spec fn joined_path(dir: Seq<char>, name: Seq<char>) -> Seq<char> {
    if dir.len() == 0 {
        name
    } else if dir.last() == '/' {
        dir + name
    } else {
        dir + seq!['/'] + name
    }
}

/// Where the file name inside a path starts: the index right after the last
/// `/`, or the path's start when it has none.
pub open spec fn name_start(p: Seq<char>) -> int
    decreases p.len(),
{
    if p.len() == 0 {
        0
    } else if p.last() == '/' {
        p.len() as int
    } else {
        name_start(p.drop_last())
    }
}

/// The file name inside a path: everything after its last `/`.
pub open spec fn file_name_spec(p: Seq<char>) -> Seq<char> {
    p.subrange(name_start(p), p.len() as int)
}

proof fn lemma_name_start_at(p: Seq<char>, i: int)
    requires
        0 <= i <= p.len(),
        forall|k: int| i <= k < p.len() ==> p[k] != '/',
        i > 0 ==> p[i - 1] == '/',
    ensures
        name_start(p) == i,
    decreases p.len(),
{
    if i == p.len() {
        if p.len() > 0 {
            assert(p.last() == '/');
        }
    } else {
        assert(p.last() != '/');
        assert(forall|k: int| i <= k < p.drop_last().len() ==> p.drop_last()[k] != '/');
        if i > 0 {
            assert(p.drop_last()[i - 1] == '/');
        }
        lemma_name_start_at(p.drop_last(), i);
    }
}

/// The name of the file a path points at, read as the portion after the
/// path's last separator.
pub fn file_name_of(path: &str) -> (r: String)
    ensures
        r@ == file_name_spec(path@),
{
    let n: usize = path.unicode_len();
    let mut i: usize = n;
    while i > 0 && path.get_char(i - 1) != '/'
        invariant
            i <= n,
            n == path@.len(),
            forall|k: int| i <= k < n ==> path@[k] != '/',
        decreases i,
    {
        i = i - 1;
    }
    proof {
        lemma_name_start_at(path@, i as int);
    }
    String::from_str(path.substring_char(i, n))
}

/// Joins a directory and a file name into one destination path.
pub fn join_path(dir: &str, name: &str) -> (r: String)
    ensures
        r@ == joined_path(dir@, name@),
{
    let n: usize = dir.unicode_len();
    if n == 0 {
        return String::from_str(name);
    }
    let last: char = dir.get_char(n - 1);
    let mut out: String = String::from_str(dir);
    if last != '/' {
        out.append("/");
        proof {
            reveal_strlit("/");
            assert(out@ =~= dir@ + seq!['/']);
        }
    }
    out.append(name);
    proof {
        assert(out@ =~= joined_path(dir@, name@));
    }
    out
}

} // verus!
