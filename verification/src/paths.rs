//! Path and string fragments the pipeline computes: the final segment of a
//! URL or path, the stem of a file name, prefix tests, and joining a file
//! name onto a directory.  All of it is plain character arithmetic, specified
//! over `Seq<char>` views.

use vstd::prelude::*;
use vstd::string::*;

verus! {

/// The characters of `s` strictly after the last occurrence of `sep`;
/// all of `s` when `sep` does not occur.
pub open spec fn suffix_after_last(s: Seq<char>, sep: char) -> Seq<char>
    decreases s.len(),
{
    if s.len() == 0 {
        Seq::empty()
    } else if s.last() == sep {
        Seq::empty()
    } else {
        suffix_after_last(s.drop_last(), sep).push(s.last())
    }
}

/// When every character from `cut` on differs from `sep`, and `cut` is either
/// the start or sits right after a `sep`, the suffix after the last `sep` is
/// exactly the range from `cut` to the end.
pub proof fn lemma_suffix_at_cut(s: Seq<char>, sep: char, cut: int)
    requires
        0 <= cut <= s.len(),
        forall|j: int| cut <= j < s.len() ==> s[j] != sep,
        cut > 0 ==> s[cut - 1] == sep,
    ensures
        suffix_after_last(s, sep) == s.subrange(cut, s.len() as int),
    decreases s.len(),
{
    if cut == s.len() {
        if s.len() > 0 {
            assert(s.last() == sep);
        }
        assert(suffix_after_last(s, sep) =~= s.subrange(cut, s.len() as int));
    } else {
        assert(s.last() != sep);
        let d = s.drop_last();
        lemma_suffix_at_cut(d, sep, cut);
        assert(d.subrange(cut, d.len() as int) =~= s.subrange(cut, s.len() - 1));
        assert(suffix_after_last(s, sep) =~= s.subrange(cut, s.len() as int));
    }
}

/// The final path segment of `s`: what follows the last `'/'`, or all of `s`
/// when there is none.  This is how a cache file name is derived from a URL.
pub open spec fn last_segment(s: Seq<char>) -> Seq<char> {
    suffix_after_last(s, '/')
}

/// The final segment of `s`, as an owned string.
///
/// A URL's cache key and a model path's file name are both computed here.
pub fn str_last_segment(s: &str) -> (r: String)
    ensures
        r@ == last_segment(s@),
{
    let len = s.unicode_len();
    let mut cut: usize = len;
    while cut > 0 && s.get_char(cut - 1) != '/'
        invariant
            0 <= cut <= len,
            len == s@.len(),
            forall|j: int| cut <= j < len ==> s@[j] != '/',
        decreases cut,
    {
        cut = cut - 1;
    }
    proof {
        lemma_suffix_at_cut(s@, '/', cut as int);
    }
    let seg = s.substring_char(cut, len);
    seg.to_owned()
}

/// `name` with everything from its last dot on removed, except that a dot in
/// first position does not count (a leading-dot name has no extension).
/// Mirrors how a file name's stem is conventionally taken.
pub open spec fn stem_of(name: Seq<char>) -> Seq<char> {
    let tail = name.subrange(1, name.len() as int);
    let suffix = suffix_after_last(tail, '.');
    if suffix.len() == tail.len() {
        name
    } else {
        name.take(name.len() - suffix.len() - 1)
    }
}

/// The stem of a file name: `name` up to its last dot, where a dot at the
/// very front does not begin an extension.
pub fn file_name_stem(name: &str) -> (r: String)
    requires
        name@.len() > 0,
    ensures
        r@ == stem_of(name@),
{
    let len = name.unicode_len();
    let mut cut: usize = len;
    while cut > 1 && name.get_char(cut - 1) != '.'
        invariant
            1 <= cut <= len,
            len == name@.len(),
            forall|j: int| cut <= j < len ==> name@[j] != '.',
        decreases cut,
    {
        cut = cut - 1;
    }
    proof {
        let tail = name@.subrange(1, len as int);
        if cut > 1 && name@[cut - 1] == '.' {
            assert(forall|j: int|
                cut - 1 <= j < tail.len() ==> tail[j] == name@[j + 1] && tail[j] != '.');
            lemma_suffix_at_cut(tail, '.', cut - 1);
            assert(stem_of(name@) =~= name@.subrange(0, cut - 1));
        } else {
            assert(cut == 1);
            assert(forall|j: int| 0 <= j < tail.len() ==> tail[j] == name@[j + 1] && tail[j]
                != '.');
            lemma_suffix_at_cut(tail, '.', 0);
            assert(stem_of(name@) =~= name@);
        }
    }
    if cut > 1 && name.get_char(cut - 1) == '.' {
        let sub = name.substring_char(0, cut - 1);
        sub.to_owned()
    } else {
        let whole = name.substring_char(0, len);
        whole.to_owned()
    }
}

/// Joining a relative name onto a directory: an absolute `name` stands alone,
/// an empty `base` contributes nothing, and otherwise exactly one `'/'`
/// separates the two.
pub open spec fn join_spec(base: Seq<char>, name: Seq<char>) -> Seq<char> {
    if name.len() > 0 && name[0] == '/' {
        name
    } else if base.len() == 0 {
        name
    } else if base.last() == '/' {
        base + name
    } else {
        base + seq!['/'] + name
    }
}

/// `name` appended under the directory `base`, as a path string.
pub fn join_path(base: &str, name: &str) -> (r: String)
    ensures
        r@ == join_spec(base@, name@),
{
    let base_len = base.unicode_len();
    let name_len = name.unicode_len();
    if name_len > 0 && name.get_char(0) == '/' {
        name.to_owned()
    } else if base_len == 0 {
        name.to_owned()
    } else if base.get_char(base_len - 1) == '/' {
        base.to_owned().concat(name)
    } else {
        proof {
            reveal_strlit("/");
        }
        let r = base.to_owned().concat("/").concat(name);
        proof {
            assert(("/")@ =~= seq!['/']);
            assert(r@ =~= base@ + seq!['/'] + name@);
        }
        r
    }
}

/// Whether `p` is a prefix of `s`: the first characters of `s` spell `p`.
pub fn str_starts_with(s: &str, p: &str) -> (r: bool)
    ensures
        r == p@.is_prefix_of(s@),
{
    let s_len = s.unicode_len();
    let p_len = p.unicode_len();
    if p_len > s_len {
        return false;
    }
    let mut i: usize = 0;
    while i < p_len
        invariant
            0 <= i <= p_len,
            p_len == p@.len(),
            s_len == s@.len(),
            p_len <= s_len,
            forall|j: int| 0 <= j < i ==> s@[j] == p@[j],
        decreases p_len - i,
    {
        if s.get_char(i) != p.get_char(i) {
            return false;
        }
        i = i + 1;
    }
    proof {
        assert(p@ =~= s@.subrange(0, p@.len() as int));
    }
    true
}

} // verus!
