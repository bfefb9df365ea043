//! Path text taken apart: the file name once trailing separators are
//! ignored, the stem a file name keeps when its extension goes, and the
//! directory a path sits in.

use vstd::prelude::*;
use vstd::string::StrSliceExecFns;

verus! {

/// The characters of `s` after the last occurrence of `c`; all of `s` when
/// `c` does not occur.
pub open spec fn suffix_after_last(s: Seq<char>, c: char) -> Seq<char>
    decreases s.len(),
{
    if s.len() == 0 {
        Seq::empty()
    } else if s.last() == c {
        Seq::empty()
    } else {
        suffix_after_last(s.drop_last(), c).push(s.last())
    }
}

/// `s` without its trailing `/` separators.
pub open spec fn strip_trailing_slashes(s: Seq<char>) -> Seq<char>
    decreases s.len(),
{
    if s.len() > 0 && s.last() == '/' {
        strip_trailing_slashes(s.drop_last())
    } else {
        s
    }
}

/// The file name of a path: its last component, trailing separators
/// ignored; empty when nothing is left of the path but separators.
pub open spec fn file_part(s: Seq<char>) -> Seq<char> {
    suffix_after_last(strip_trailing_slashes(s), '/')
}

/// A file name minus its extension: what stands before the last `.`, except
/// that a name whose only `.` leads it — a hidden file — stays whole, and so
/// does a name with no `.` at all.
pub open spec fn stem_part(s: Seq<char>) -> Seq<char> {
    let cut = s.len() - suffix_after_last(s, '.').len();
    if cut <= 1 {
        s
    } else {
        s.take(cut - 1)
    }
}

/// The directory part of a path, trailing separators ignored: what stands
/// before the last `/`, the root `/` alone when that slash comes first, the
/// empty string for a bare name, and nothing at all for an empty path or
/// for `/` itself.
pub open spec fn dir_part(s: Seq<char>) -> Option<Seq<char>> {
    let t = strip_trailing_slashes(s);
    let cut = t.len() - file_part(s).len();
    if t.len() == 0 {
        None
    } else if cut == 0 {
        Some(Seq::empty())
    } else if cut == 1 {
        Some("/"@)
    } else {
        Some(t.take(cut - 1))
    }
}

/// Wherever a position `cut` sits right after the last occurrence of `c` in
/// `s` (or at 0 when `s` holds none), the suffix after the last `c` is
/// exactly the suffix from `cut` on.
pub proof fn lemma_suffix_after_last_at_cut(s: Seq<char>, c: char, cut: int)
    requires
        0 <= cut <= s.len(),
        cut > 0 ==> s[cut - 1] == c,
        forall|j: int| cut <= j < s.len() ==> s[j] != c,
    ensures
        suffix_after_last(s, c) =~= s.subrange(cut, s.len() as int),
    decreases s.len(),
{
    if cut == s.len() {
        if s.len() > 0 && cut > 0 {
            assert(s.last() == c);
        }
    } else {
        assert(s[s.len() - 1] != c);
        let d = s.drop_last();
        assert(forall|j: int| cut <= j < d.len() ==> d[j] != c);
        lemma_suffix_after_last_at_cut(d, c, cut);
        assert(suffix_after_last(s, c) =~= s.subrange(cut, s.len() as int));
    }
}

/// Wherever a position `e` sits right after the last character of `s` that
/// is not a `/` (or at 0 when `s` is nothing but slashes), stripping the
/// trailing separators leaves exactly the prefix up to `e`.
pub proof fn lemma_strip_at(s: Seq<char>, e: int)
    requires
        0 <= e <= s.len(),
        forall|j: int| e <= j < s.len() ==> s[j] == '/',
        e > 0 ==> s[e - 1] != '/',
    ensures
        strip_trailing_slashes(s) =~= s.subrange(0, e),
    decreases s.len(),
{
    if s.len() == e {
    } else {
        assert(s.last() == '/');
        let d = s.drop_last();
        assert(forall|j: int| e <= j < d.len() ==> d[j] == '/');
        lemma_strip_at(d, e);
        assert(strip_trailing_slashes(s) =~= s.subrange(0, e));
    }
}

/// The end of `path` once its trailing `/` separators are dropped.
fn strip_end(path: &str) -> (e: usize)
    ensures
        e <= path@.len(),
        forall|j: int| e <= j < path@.len() ==> path@[j] == '/',
        e > 0 ==> path@[e - 1] != '/',
{
    let mut e: usize = path.unicode_len();
    while e > 0 && path.get_char(e - 1) == '/'
        invariant
            e <= path@.len(),
            forall|j: int| e <= j < path@.len() ==> path@[j] == '/',
        decreases e,
    {
        e = e - 1;
    }
    e
}

/// The position right after the last occurrence of `c` in `path` before
/// `end`; 0 when none occurs there.
fn cut_before(path: &str, c: char, end: usize) -> (r: usize)
    requires
        end <= path@.len(),
    ensures
        r <= end,
        r > 0 ==> path@[r - 1] == c,
        forall|j: int| r <= j < end ==> path@[j] != c,
{
    let mut cut: usize = 0;
    let mut i: usize = 0;
    while i < end
        invariant
            cut <= i <= end,
            end <= path@.len(),
            cut > 0 ==> path@[cut - 1] == c,
            forall|j: int| cut <= j < i ==> path@[j] != c,
        decreases end - i,
    {
        if path.get_char(i) == c {
            cut = i + 1;
        }
        i = i + 1;
    }
    cut
}

/// The file name of a path: the characters of its last component, trailing
/// separators ignored. `None` when the path is empty or holds nothing but
/// separators, which leaves no file name.
pub fn file_name_of(path: &str) -> (r: Option<String>)
    ensures
        match r {
            Some(name) => name@ == file_part(path@) && file_part(path@).len() > 0,
            None => file_part(path@).len() == 0,
        },
{
    let e = strip_end(path);
    let cut = cut_before(path, '/', e);
    proof {
        lemma_strip_at(path@, e as int);
        let t = path@.subrange(0, e as int);
        lemma_suffix_after_last_at_cut(t, '/', cut as int);
        assert(file_part(path@) =~= path@.subrange(cut as int, e as int));
    }
    if cut == e {
        None
    } else {
        Some(path.substring_char(cut, e).to_owned())
    }
}

/// The stem of a file name: the characters before its last `.`, with a
/// dotless or hidden-file name kept whole.
pub fn base_name_of(name: &str) -> (r: String)
    ensures
        r@ == stem_part(name@),
{
    let n = name.unicode_len();
    let cut = cut_before(name, '.', n);
    proof {
        lemma_suffix_after_last_at_cut(name@, '.', cut as int);
    }
    if cut <= 1 {
        name.to_owned()
    } else {
        name.substring_char(0, cut - 1).to_owned()
    }
}

/// The directory a path sits in, as `dir_part` gives it. `None` when the
/// path is empty or is nothing but separators, which callers treat as a
/// fatal configuration error.
pub fn parent_of(path: &str) -> (r: Option<String>)
    ensures
        match r {
            Some(p) => dir_part(path@) matches Some(d) && p@ == d,
            None => dir_part(path@) is None,
        },
{
    let e = strip_end(path);
    let cut = cut_before(path, '/', e);
    proof {
        lemma_strip_at(path@, e as int);
        let t = path@.subrange(0, e as int);
        lemma_suffix_after_last_at_cut(t, '/', cut as int);
        assert(file_part(path@) =~= path@.subrange(cut as int, e as int));
        if cut >= 2 {
            assert(t.take(cut - 1) =~= path@.subrange(0, cut - 1));
        }
    }
    if e == 0 {
        None
    } else if cut == 0 {
        Some(String::new())
    } else if cut == 1 {
        Some("/".to_owned())
    } else {
        Some(path.substring_char(0, cut - 1).to_owned())
    }
}

} // verus!
