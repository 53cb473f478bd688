//! Verified text primitives: substring search and first-occurrence
//! replacement over character sequences. The source patcher is built on
//! these, and its idempotence proof rests on the lemmas here.

use vstd::prelude::*;

verus! {

/// `needle` occurs in `hay` starting at position `i`.
pub open spec fn occurs_at(hay: Seq<char>, needle: Seq<char>, i: int) -> bool {
    &&& 0 <= i
    &&& i + needle.len() <= hay.len()
    &&& hay.subrange(i, i + needle.len() as int) == needle
}

/// `needle` occurs somewhere in `hay`.
pub open spec fn has_sub(hay: Seq<char>, needle: Seq<char>) -> bool {
    exists|i: int| occurs_at(hay, needle, i)
}

/// `i` is the leftmost position at which `needle` occurs in `hay`.
pub open spec fn is_first_occurrence(hay: Seq<char>, needle: Seq<char>, i: int) -> bool {
    &&& occurs_at(hay, needle, i)
    &&& forall|j: int| 0 <= j < i ==> !occurs_at(hay, needle, j)
}

/// The leftmost position at which `needle` occurs in `hay`; meaningful
/// only when `has_sub(hay, needle)` holds.
pub open spec fn first_index(hay: Seq<char>, needle: Seq<char>) -> int {
    choose|i: int| is_first_occurrence(hay, needle, i)
}

/// `hay` with the leftmost occurrence of `needle` replaced by `repl`;
/// `hay` unchanged when there is no occurrence.
pub open spec fn spec_replace_first(
    hay: Seq<char>,
    needle: Seq<char>,
    repl: Seq<char>,
) -> Seq<char> {
    if has_sub(hay, needle) {
        let i = first_index(hay, needle);
        hay.subrange(0, i) + repl + hay.subrange(i + needle.len() as int, hay.len() as int)
    } else {
        hay
    }
}

proof fn lemma_least_occurrence(hay: Seq<char>, needle: Seq<char>, i: int)
    requires
        occurs_at(hay, needle, i),
    ensures
        exists|k: int| is_first_occurrence(hay, needle, k),
    decreases i,
{
    if forall|j: int| 0 <= j < i ==> !occurs_at(hay, needle, j) {
        assert(is_first_occurrence(hay, needle, i));
    } else {
        let j = choose|j: int| 0 <= j < i && occurs_at(hay, needle, j);
        lemma_least_occurrence(hay, needle, j);
    }
}

/// When `needle` occurs at all, `first_index` is its leftmost occurrence.
pub proof fn lemma_first_index(hay: Seq<char>, needle: Seq<char>)
    requires
        has_sub(hay, needle),
    ensures
        is_first_occurrence(hay, needle, first_index(hay, needle)),
{
    let i = choose|i: int| occurs_at(hay, needle, i);
    lemma_least_occurrence(hay, needle, i);
    let k = choose|k: int| is_first_occurrence(hay, needle, k);
    assert(is_first_occurrence(hay, needle, k));
}

/// The leftmost occurrence is unique.
pub proof fn lemma_first_occurrence_unique(hay: Seq<char>, needle: Seq<char>, i1: int, i2: int)
    requires
        is_first_occurrence(hay, needle, i1),
        is_first_occurrence(hay, needle, i2),
    ensures
        i1 == i2,
{
    if i1 < i2 {
        assert(!occurs_at(hay, needle, i1));
    }
    if i2 < i1 {
        assert(!occurs_at(hay, needle, i2));
    }
}

/// An occurrence inside a prefix is an occurrence in the whole.
pub proof fn lemma_occurs_in_prefix(a: Seq<char>, b: Seq<char>, needle: Seq<char>, i: int)
    requires
        occurs_at(a, needle, i),
    ensures
        occurs_at(a + b, needle, i),
{
    assert((a + b).subrange(i, i + needle.len() as int) =~= a.subrange(
        i,
        i + needle.len() as int,
    ));
}

/// An occurrence inside a suffix is an occurrence in the whole, shifted.
pub proof fn lemma_occurs_in_suffix(a: Seq<char>, b: Seq<char>, needle: Seq<char>, i: int)
    requires
        occurs_at(b, needle, i),
    ensures
        occurs_at(a + b, needle, a.len() + i),
{
    assert((a + b).subrange(a.len() + i, a.len() + i + needle.len() as int) =~= b.subrange(
        i,
        i + needle.len() as int,
    ));
}

/// Whatever occurs in a prefix occurs in the whole.
pub proof fn lemma_has_sub_prefix(a: Seq<char>, b: Seq<char>, needle: Seq<char>)
    requires
        has_sub(a, needle),
    ensures
        has_sub(a + b, needle),
{
    let i = choose|i: int| occurs_at(a, needle, i);
    lemma_occurs_in_prefix(a, b, needle, i);
}

/// Whatever occurs in a suffix occurs in the whole.
pub proof fn lemma_has_sub_suffix(a: Seq<char>, b: Seq<char>, needle: Seq<char>)
    requires
        has_sub(b, needle),
    ensures
        has_sub(a + b, needle),
{
    let i = choose|i: int| occurs_at(b, needle, i);
    lemma_occurs_in_suffix(a, b, needle, i);
}

/// A substring of an occurring string occurs itself.
pub proof fn lemma_has_sub_within(hay: Seq<char>, outer: Seq<char>, inner: Seq<char>)
    requires
        has_sub(hay, outer),
        has_sub(outer, inner),
    ensures
        has_sub(hay, inner),
{
    let i = choose|i: int| occurs_at(hay, outer, i);
    let j = choose|j: int| occurs_at(outer, inner, j);
    assert forall|k: int| 0 <= k < inner.len() implies #[trigger] hay.subrange(
        i + j,
        i + j + inner.len() as int,
    )[k] == inner[k] by {
        assert(outer[j + k] == hay.subrange(i, i + outer.len() as int)[j + k]);
        assert(inner[k] == outer.subrange(j, j + inner.len() as int)[k]);
    }
    assert(hay.subrange(i + j, i + j + inner.len() as int) =~= inner);
    assert(occurs_at(hay, inner, i + j));
}

/// A needle that holds no newline cannot straddle the boundary of a
/// prefix that ends in a newline: it occurs on one side or the other.
pub proof fn lemma_no_straddle(a: Seq<char>, b: Seq<char>, needle: Seq<char>)
    requires
        char_free(needle, '\n'),
        a.len() == 0 || a[a.len() - 1] == '\n',
        has_sub(a + b, needle),
    ensures
        has_sub(a, needle) || has_sub(b, needle),
{
    let i = choose|i: int| occurs_at(a + b, needle, i);
    let m = needle.len() as int;
    if i + m <= a.len() {
        assert(a.subrange(i, i + m) =~= (a + b).subrange(i, i + m));
        assert(occurs_at(a, needle, i));
    } else if i >= a.len() {
        assert(b.subrange(i - a.len(), i - a.len() + m) =~= (a + b).subrange(i, i + m));
        assert(occurs_at(b, needle, i - a.len()));
    } else {
        // the occurrence would cover the final newline of `a`
        let p = a.len() - 1;
        assert(i <= p < i + m);
        assert(needle[p - i] == (a + b).subrange(i, i + m)[p - i]);
        assert((a + b)[p] == a[p]);
        assert(false);
    }
}

/// `s` holds no occurrence of the character `c`.
pub open spec fn char_free(s: Seq<char>, c: char) -> bool {
    forall|k: int| 0 <= k < s.len() ==> s[k] != c
}

/// Freedom from a character survives concatenation.
pub proof fn lemma_char_free_concat(a: Seq<char>, b: Seq<char>, c: char)
    requires
        char_free(a, c),
        char_free(b, c),
    ensures
        char_free(a + b, c),
{
    assert forall|k: int| 0 <= k < (a + b).len() implies (a + b)[k] != c by {
        if k < a.len() {
            assert((a + b)[k] == a[k]);
        } else {
            assert((a + b)[k] == b[k - a.len()]);
        }
    }
}

/// A string that holds a needle holds each of the needle's characters.
pub proof fn lemma_has_sub_not_char_free(hay: Seq<char>, needle: Seq<char>, k: int)
    requires
        has_sub(hay, needle),
        0 <= k < needle.len(),
    ensures
        !char_free(hay, needle[k]),
{
    let i = choose|i: int| occurs_at(hay, needle, i);
    assert(hay[i + k] == hay.subrange(i, i + needle.len() as int)[k]);
}

/// Tests whether `needle` matches `hay` at position `i`.
fn match_at(hay: &str, needle: &str, i: usize) -> (b: bool)
    requires
        i + needle@.len() <= hay@.len(),
        hay@.len() <= usize::MAX,
    ensures
        b == occurs_at(hay@, needle@, i as int),
{
    let m = needle.unicode_len();
    let mut j: usize = 0;
    while j < m
        invariant
            j <= m,
            m == needle@.len(),
            i + m <= hay@.len(),
            hay@.len() <= usize::MAX,
            forall|k: int| 0 <= k < j ==> hay@[i + k] == needle@[k],
        decreases m - j,
    {
        if hay.get_char(i + j) != needle.get_char(j) {
            proof {
                if occurs_at(hay@, needle@, i as int) {
                    assert(hay@.subrange(i as int, i + m as int)[j as int] == needle@[j as int]);
                }
            }
            return false;
        }
        j += 1;
    }
    proof {
        assert(hay@.subrange(i as int, i + m as int) =~= needle@);
    }
    true
}

/// Finds the leftmost occurrence of `needle` in `hay`.
pub fn find_first(hay: &str, needle: &str) -> (r: Option<usize>)
    ensures
        match r {
            Some(i) => is_first_occurrence(hay@, needle@, i as int),
            None => !has_sub(hay@, needle@),
        },
{
    let n = hay.unicode_len();
    let m = needle.unicode_len();
    if m > n {
        proof {
            assert forall|i: int| !occurs_at(hay@, needle@, i) by {}
        }
        return None;
    }
    if m == 0 {
        proof {
            assert(hay@.subrange(0, 0) =~= needle@);
        }
        return Some(0);
    }
    let mut i: usize = 0;
    while i <= n - m
        invariant
            1 <= m <= n,
            n == hay@.len(),
            m == needle@.len(),
            i <= n - m + 1,
            forall|j: int| 0 <= j < i ==> !occurs_at(hay@, needle@, j),
        decreases n - m + 1 - i,
    {
        if match_at(hay, needle, i) {
            return Some(i);
        }
        i += 1;
    }
    proof {
        assert forall|j: int| !occurs_at(hay@, needle@, j) by {
            if occurs_at(hay@, needle@, j) {
                assert(0 <= j <= n - m);
            }
        }
    }
    None
}

/// Character-for-character equality of two string slices.
pub fn str_eq(a: &str, b: &str) -> (r: bool)
    ensures
        r == (a@ == b@),
{
    let n = a.unicode_len();
    let m = b.unicode_len();
    if n != m {
        return false;
    }
    let mut i: usize = 0;
    while i < n
        invariant
            i <= n,
            n == a@.len(),
            n == b@.len(),
            forall|k: int| 0 <= k < i ==> a@[k] == b@[k],
        decreases n - i,
    {
        if a.get_char(i) != b.get_char(i) {
            return false;
        }
        i += 1;
    }
    proof {
        assert(a@ =~= b@);
    }
    true
}

/// Tests whether `needle` occurs anywhere in `hay`.
pub fn contains_sub(hay: &str, needle: &str) -> (b: bool)
    ensures
        b == has_sub(hay@, needle@),
{
    match find_first(hay, needle) {
        Some(i) => {
            proof {
                assert(occurs_at(hay@, needle@, i as int));
            }
            true
        },
        None => false,
    }
}

/// Replaces the leftmost occurrence of `needle` in `hay` with `repl`;
/// returns `hay` unchanged when `needle` does not occur.
pub fn replace_first(hay: &str, needle: &str, repl: &str) -> (r: String)
    ensures
        r@ == spec_replace_first(hay@, needle@, repl@),
{
    match find_first(hay, needle) {
        Some(i) => {
            let n = hay.unicode_len();
            let m = needle.unicode_len();
            let pre = hay.substring_char(0, i);
            let suf = hay.substring_char(i + m, n);
            let mut out = String::from_str(pre);
            out.append(repl);
            out.append(suf);
            proof {
                assert(occurs_at(hay@, needle@, i as int));
                lemma_first_index(hay@, needle@);
                lemma_first_occurrence_unique(
                    hay@,
                    needle@,
                    i as int,
                    first_index(hay@, needle@),
                );
            }
            out
        },
        None => String::from_str(hay),
    }
}

} // verus!
