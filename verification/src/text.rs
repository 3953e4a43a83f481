//! Small verified text utilities: character-wise string equality and
//! substring search, with a spec-level notion of where a needle occurs.

use vstd::prelude::*;

verus! {

/// The needle occurs in the haystack starting at character position `i`.
pub open spec fn match_at(hay: Seq<char>, needle: Seq<char>, i: int) -> bool {
    0 <= i && i + needle.len() <= hay.len() && hay.subrange(i, i + needle.len()) == needle
}

/// The needle occurs somewhere in the haystack.
pub open spec fn contains_seq(hay: Seq<char>, needle: Seq<char>) -> bool {
    exists|i: int| match_at(hay, needle, i)
}

/// Character position of the first occurrence of the needle, if any.
pub open spec fn spec_find(hay: Seq<char>, needle: Seq<char>) -> Option<int>
    decreases hay.len(),
{
    if needle.len() > hay.len() {
        None
    } else if hay.subrange(0, needle.len() as int) == needle {
        Some(0)
    } else if hay.len() == 0 {
        None
    } else {
        match spec_find(hay.skip(1), needle) {
            Some(i) => Some(i + 1),
            None => None,
        }
    }
}

/// Occurrences shift by one when the first character of the haystack is dropped.
proof fn lemma_match_at_shift(hay: Seq<char>, needle: Seq<char>, i: int)
    requires
        hay.len() > 0,
        i >= 0,
    ensures
        match_at(hay, needle, i + 1) == match_at(hay.skip(1), needle, i),
{
    if i + 1 + needle.len() <= hay.len() {
        assert(hay.skip(1).subrange(i, i + needle.len() as int) =~= hay.subrange(
            i + 1,
            i + 1 + needle.len() as int,
        ));
    }
}

/// A position that matches, with no match before it, is what `spec_find` returns.
proof fn lemma_find_first(hay: Seq<char>, needle: Seq<char>, i: int)
    requires
        match_at(hay, needle, i),
        forall|k: int| 0 <= k < i ==> !match_at(hay, needle, k),
    ensures
        spec_find(hay, needle) == Some(i),
    decreases hay.len(),
{
    if i == 0 {
        assert(hay.subrange(0, needle.len() as int) == needle);
    } else {
        assert(!match_at(hay, needle, 0));
        assert(hay.subrange(0, needle.len() as int) != needle);
        assert(hay.len() > 0);
        lemma_match_at_shift(hay, needle, i - 1);
        assert(match_at(hay.skip(1), needle, i - 1));
        assert forall|k: int| 0 <= k < i - 1 implies !match_at(hay.skip(1), needle, k) by {
            lemma_match_at_shift(hay, needle, k);
        }
        lemma_find_first(hay.skip(1), needle, i - 1);
    }
}

/// A haystack with no occurrence at all is one where `spec_find` returns `None`.
proof fn lemma_find_none(hay: Seq<char>, needle: Seq<char>)
    requires
        !contains_seq(hay, needle),
    ensures
        spec_find(hay, needle) == None::<int>,
    decreases hay.len(),
{
    if needle.len() > hay.len() {
    } else if hay.subrange(0, needle.len() as int) == needle {
        assert(match_at(hay, needle, 0));
    } else if hay.len() == 0 {
    } else {
        assert forall|k: int| 0 <= k implies !match_at(hay.skip(1), needle, k) by {
            lemma_match_at_shift(hay, needle, k);
            assert(!match_at(hay, needle, k + 1));
        }
        assert(!contains_seq(hay.skip(1), needle)) by {
            if contains_seq(hay.skip(1), needle) {
                let k = choose|k: int| match_at(hay.skip(1), needle, k);
                assert(k >= 0);
            }
        }
        lemma_find_none(hay.skip(1), needle);
    }
}

/// Relies on String::push: appends exactly the given character at the end.
pub assume_specification[ String::push ](s: &mut String, ch: char)
    ensures
        final(s)@ == old(s)@.push(ch),
;

/// The middle part of a concatenation occurs in it.
pub proof fn lemma_concat_contains(a: Seq<char>, b: Seq<char>, c: Seq<char>)
    ensures
        contains_seq(a + b + c, b),
{
    let h = a + b + c;
    assert(h.subrange(a.len() as int, (a.len() + b.len()) as int) =~= b);
    assert(match_at(h, b, a.len() as int));
}

/// Character-wise equality of two string slices.
pub fn str_eq(a: &str, b: &str) -> (r: bool)
    ensures
        r == (a@ == b@),
{
    let alen = a.unicode_len();
    let blen = b.unicode_len();
    if alen != blen {
        return false;
    }
    let mut i: usize = 0;
    while i < alen
        invariant
            alen == a@.len(),
            alen == b@.len(),
            i <= alen,
            forall|k: int| 0 <= k < i ==> a@[k] == b@[k],
        decreases alen - i,
    {
        if a.get_char(i) != b.get_char(i) {
            return false;
        }
        i += 1;
    }
    proof {
        assert(a@ =~= b@);
    }
    true
}

/// First occurrence of `needle` in `hay`, by character position.
pub fn find_sub(hay: &str, needle: &str) -> (r: Option<usize>)
    ensures
        match r {
            Some(i) => spec_find(hay@, needle@) == Some(i as int) && match_at(
                hay@,
                needle@,
                i as int,
            ),
            None => spec_find(hay@, needle@) is None && !contains_seq(hay@, needle@),
        },
{
    let hlen = hay.unicode_len();
    let nlen = needle.unicode_len();
    if nlen > hlen {
        proof {
            assert(!contains_seq(hay@, needle@));
            lemma_find_none(hay@, needle@);
        }
        return None;
    }
    let mut i: usize = 0;
    while i <= hlen - nlen
        invariant
            hlen == hay@.len(),
            nlen == needle@.len(),
            nlen <= hlen,
            i <= hlen - nlen + 1,
            forall|k: int| 0 <= k < i ==> !match_at(hay@, needle@, k),
        decreases hlen + 1 - nlen - i,
    {
        let mut j: usize = 0;
        while j < nlen && hay.get_char(i + j) == needle.get_char(j)
            invariant
                hlen == hay@.len(),
                nlen == needle@.len(),
                i + nlen <= hlen,
                j <= nlen,
                forall|t: int| 0 <= t < j ==> hay@[i + t] == needle@[t],
            decreases nlen - j,
        {
            j += 1;
        }
        if j == nlen {
            proof {
                assert(hay@.subrange(i as int, i + nlen as int) =~= needle@);
                assert(match_at(hay@, needle@, i as int));
                lemma_find_first(hay@, needle@, i as int);
            }
            return Some(i);
        }
        proof {
            assert(hay@[i + j] != needle@[j as int]);
            assert(!match_at(hay@, needle@, i as int)) by {
                if match_at(hay@, needle@, i as int) {
                    assert(hay@.subrange(i as int, i + nlen as int)[j as int] == needle@[j as int]);
                }
            }
        }
        i += 1;
    }
    proof {
        assert forall|k: int| !match_at(hay@, needle@, k) by {
            if 0 <= k < i {
            } else if k >= i {
                assert(k + needle@.len() > hay@.len());
            }
        }
        assert(!contains_seq(hay@, needle@));
        lemma_find_none(hay@, needle@);
    }
    None
}

/// Whether `needle` occurs anywhere in `hay`.
pub fn contains_sub(hay: &str, needle: &str) -> (r: bool)
    ensures
        r == contains_seq(hay@, needle@),
{
    match find_sub(hay, needle) {
        Some(_) => true,
        None => false,
    }
}

} // verus!
