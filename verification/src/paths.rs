//! Paths as text. A path is a `String` whose components are separated by
//! `/`; joining follows the rule of `PathBuf::push` on POSIX systems.

use vstd::prelude::*;

verus! {

/// The separator between the components of a path.
pub open spec fn sep() -> char {
    '/'
}

/// `seg` appended to `base`: an absolute `seg` replaces `base`; otherwise a
/// separator is put between the two unless `base` is empty or already ends
/// with one.
pub open spec fn joined(base: Seq<char>, seg: Seq<char>) -> Seq<char> {
    if seg.len() > 0 && seg[0] == sep() {
        seg
    } else if base.len() == 0 || base.last() == sep() {
        base + seg
    } else {
        base + seq![sep()] + seg
    }
}

/// The index of the last separator in `p`, or -1 where it holds none.
pub open spec fn last_sep(p: Seq<char>) -> int
    decreases p.len(),
{
    if p.len() == 0 {
        -1
    } else if p.last() == sep() {
        p.len() - 1
    } else {
        last_sep(p.drop_last())
    }
}

/// The directory that holds `p`: what stands before the last separator,
/// the root itself where that separator is the first character, and the
/// empty path where `p` has no separator.
pub open spec fn parent_of(p: Seq<char>) -> Seq<char> {
    let i = last_sep(p);
    if i < 0 {
        Seq::<char>::empty()
    } else if i == 0 {
        seq![sep()]
    } else {
        p.subrange(0, i)
    }
}

/// Whether `p` starts at the root of the file system.
pub open spec fn is_absolute(p: Seq<char>) -> bool {
    p.len() > 0 && p[0] == sep()
}

/// Joining onto an absolute path gives an absolute path.
pub proof fn joined_stays_absolute(base: Seq<char>, seg: Seq<char>)
    requires
        is_absolute(base),
    ensures
        is_absolute(joined(base, seg)),
{
}

/// Joins `seg` onto `base`.
pub fn join_path(base: &str, seg: &str) -> (r: String)
    ensures
        r@ == joined(base@, seg@),
{
    let n: usize = seg.unicode_len();
    let m: usize = base.unicode_len();
    if n > 0 && seg.get_char(0) == '/' {
        String::from_str(seg)
    } else if m == 0 || base.get_char(m - 1) == '/' {
        String::from_str(base).concat(seg)
    } else {
        proof {
            reveal_strlit("/");
            assert("/"@ =~= seq![sep()]);
        }
        String::from_str(base).concat("/").concat(seg)
    }
}

/// The directory that holds `path`.
pub fn parent_path(path: &str) -> (r: String)
    ensures
        r@ == parent_of(path@),
{
    let n: usize = path.unicode_len();
    let mut i: usize = n;
    assert(path@.subrange(0, n as int) =~= path@);
    while i > 0 && path.get_char(i - 1) != '/'
        invariant
            i <= n,
            n == path@.len(),
            last_sep(path@) == last_sep(path@.subrange(0, i as int)),
        decreases i,
    {
        proof {
            let q = path@.subrange(0, i as int);
            assert(q.last() == path@[i - 1]);
            assert(q.drop_last() =~= path@.subrange(0, i - 1));
        }
        i = i - 1;
    }
    proof {
        let q = path@.subrange(0, i as int);
        assert(path@.subrange(0, n as int) =~= path@);
        if i > 0 {
            assert(q.last() == path@[i - 1]);
        }
    }
    if i == 0 {
        String::new()
    } else if i == 1 {
        proof {
            reveal_strlit("/");
            assert("/"@ =~= seq![sep()]);
        }
        String::from_str("/")
    } else {
        String::from_str(path.substring_char(0, i - 1))
    }
}

} // verus!
