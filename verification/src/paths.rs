//! Path text helpers: deriving the compatibility-data directory from a
//! Wine-prefix path and joining an output directory with a file name.
//!
//! Paths are handled as plain character sequences; a `/` character is the
//! component separator.

use vstd::prelude::*;

verus! {

/// True when `p` holds at least one `/` separator.
pub open spec fn has_sep(p: Seq<char>) -> bool {
    exists|i: int| 0 <= i < p.len() && p[i] == '/'
}

/// Index of the last `/` in `p`, or `-1` when there is none.
pub open spec fn last_sep(p: Seq<char>) -> int
    decreases p.len(),
{
    if p.len() == 0 {
        -1
    } else if p[p.len() - 1] == '/' {
        p.len() - 1
    } else {
        last_sep(p.drop_last())
    }
}

/// `last_sep` finds exactly the last separator: it is nonnegative exactly
/// when a separator exists, it points at a `/`, and no later character is
/// a `/`.
pub proof fn lemma_last_sep(p: Seq<char>)
    ensures
        has_sep(p) <==> last_sep(p) >= 0,
        !has_sep(p) ==> last_sep(p) == -1,
        has_sep(p) ==> 0 <= last_sep(p) < p.len() && p[last_sep(p)] == '/',
        forall|j: int| last_sep(p) < j < p.len() ==> p[j] != '/',
    decreases p.len(),
{
    if p.len() == 0 {
        assert(!has_sep(p));
    } else if p[p.len() - 1] == '/' {
        assert(has_sep(p));
    } else {
        let q = p.drop_last();
        lemma_last_sep(q);
        assert(forall|i: int| 0 <= i < q.len() ==> p[i] == q[i]);
        if has_sep(p) {
            let i = choose|i: int| 0 <= i < p.len() && p[i] == '/';
            assert(i < p.len() - 1);
            assert(q[i] == '/');
            assert(has_sep(q));
        }
        if has_sep(q) {
            let i = choose|i: int| 0 <= i < q.len() && q[i] == '/';
            assert(p[i] == '/');
            assert(has_sep(p));
        }
    }
}

/// The compatibility-data directory derived from a prefix path: the text
/// before the last `/` (just `/` itself when the last separator is the
/// first character), or the whole path when it holds no separator and so
/// has no parent directory.
pub open spec fn compat_data_of(p: Seq<char>) -> Seq<char> {
    if !has_sep(p) {
        p
    } else if last_sep(p) == 0 {
        p.subrange(0, 1)
    } else {
        p.subrange(0, last_sep(p))
    }
}

/// Computes the compatibility-data directory for a prefix path.
pub fn compat_data_dir(prefix: &str) -> (r: String)
    ensures
        r@ == compat_data_of(prefix@),
{
    let n: usize = prefix.unicode_len();
    let mut i: usize = n;
    proof {
        assert(prefix@.subrange(0, n as int) =~= prefix@);
    }
    loop
        invariant
            i <= n,
            n == prefix@.len(),
            last_sep(prefix@) == last_sep(prefix@.subrange(0, i as int)),
        decreases i,
    {
        if i == 0 {
            proof {
                assert(prefix@.subrange(0, 0).len() == 0);
                lemma_last_sep(prefix@);
            }
            return prefix.to_owned();
        }
        let c: char = prefix.get_char(i - 1);
        proof {
            let sub = prefix@.subrange(0, i as int);
            assert(sub[i - 1] == prefix@[i - 1]);
            if c == '/' {
                assert(last_sep(sub) == i - 1);
                lemma_last_sep(prefix@);
            } else {
                assert(sub.drop_last() =~= prefix@.subrange(0, i - 1));
                assert(last_sep(sub) == last_sep(prefix@.subrange(0, i - 1)));
            }
        }
        if c == '/' {
            if i == 1 {
                return prefix.substring_char(0, 1).to_owned();
            }
            return prefix.substring_char(0, i - 1).to_owned();
        }
        i = i - 1;
    }
}

/// A path for `file` directly inside `dir`: the two joined with a `/`,
/// with no separator added when `dir` is empty or already ends in one.
pub open spec fn joined_path(dir: Seq<char>, file: Seq<char>) -> Seq<char> {
    if dir.len() == 0 {
        file
    } else if dir.last() == '/' {
        dir + file
    } else {
        dir + "/"@ + file
    }
}

/// A joined path starts with the output directory and ends with the file
/// name: the generated file lies at the documented name directly inside
/// the directory the caller supplied.
pub proof fn lemma_joined_path_names_file(dir: Seq<char>, file: Seq<char>)
    ensures
        joined_path(dir, file).len() >= dir.len() + file.len(),
        joined_path(dir, file).subrange(0, dir.len() as int) == dir,
        joined_path(dir, file).subrange(
            joined_path(dir, file).len() - file.len(),
            joined_path(dir, file).len() as int,
        ) == file,
{
    let j = joined_path(dir, file);
    assert(j.subrange(0, dir.len() as int) =~= dir);
    assert(j.subrange(j.len() - file.len(), j.len() as int) =~= file);
}

/// Joins an output directory with a file name.
pub fn join_path(dir: &str, file: &str) -> (r: String)
    ensures
        r@ == joined_path(dir@, file@),
{
    let n: usize = dir.unicode_len();
    if n == 0 {
        return file.to_owned();
    }
    let last: char = dir.get_char(n - 1);
    let mut s: String = dir.to_owned();
    if last != '/' {
        s.append("/");
    }
    s.append(file);
    s
}

} // verus!
