//! Splitting a string on a separator character.
//!
//! The cache configuration carries its host list as one string,
//! `"host:port,host:port,..."`; this module gives the split that the
//! topology selection is specified over.

use vstd::prelude::*;
use vstd::string::StringExecFns;

verus! {

/// Index of the first occurrence of `sep` in `s`, or -1.
pub open spec fn find_sep(s: Seq<char>, sep: char) -> int
    decreases s.len(),
{
    if s.len() == 0 {
        -1
    } else if s[0] == sep {
        0
    } else if find_sep(s.drop_first(), sep) < 0 {
        -1
    } else {
        find_sep(s.drop_first(), sep) + 1
    }
}

/// `find_sep` finds the first occurrence: it stays below the length,
/// points at the separator, and nothing before it is one.
pub proof fn lemma_find_sep_bounds(s: Seq<char>, sep: char)
    ensures
        -1 <= find_sep(s, sep) < s.len(),
        find_sep(s, sep) >= 0 ==> s[find_sep(s, sep)] == sep,
        find_sep(s, sep) >= 0 ==> forall|j: int| 0 <= j < find_sep(s, sep) ==> s[j] != sep,
        find_sep(s, sep) == -1 ==> forall|j: int| 0 <= j < s.len() ==> s[j] != sep,
    decreases s.len(),
{
    if s.len() == 0 {
    } else if s[0] == sep {
    } else {
        lemma_find_sep_bounds(s.drop_first(), sep);
        assert forall|j: int| 0 <= j < s.len() implies s[j] == s.drop_first()[j - 1] || j == 0 by {
            if j > 0 {
                assert(s.drop_first()[j - 1] == s[j]);
            }
        }
    }
}

/// The pieces of `s` between the occurrences of `sep`: always at
/// least one piece, and one more piece per separator.
pub open spec fn spec_split(s: Seq<char>, sep: char) -> Seq<Seq<char>>
    decreases s.len(),
    via spec_split_decreases
{
    let i = find_sep(s, sep);
    if i < 0 {
        seq![s]
    } else {
        seq![s.subrange(0, i)] + spec_split(s.subrange(i + 1, s.len() as int), sep)
    }
}

#[via_fn]
proof fn spec_split_decreases(s: Seq<char>, sep: char) {
    lemma_find_sep_bounds(s, sep);
}

/// When the first separator stands at `k`, the split is the piece
/// before `k` followed by the split of what stands after `k`.
pub proof fn lemma_split_step(s: Seq<char>, sep: char, k: int)
    requires
        0 <= k < s.len(),
        s[k] == sep,
        forall|j: int| 0 <= j < k ==> s[j] != sep,
    ensures
        spec_split(s, sep) == seq![s.subrange(0, k)] + spec_split(
            s.subrange(k + 1, s.len() as int),
            sep,
        ),
{
    lemma_find_sep_is(s, sep, k);
}

pub proof fn lemma_find_sep_is(s: Seq<char>, sep: char, k: int)
    requires
        0 <= k < s.len(),
        s[k] == sep,
        forall|j: int| 0 <= j < k ==> s[j] != sep,
    ensures
        find_sep(s, sep) == k,
    decreases k,
{
    if k > 0 {
        assert forall|j: int| 0 <= j < k - 1 implies s.drop_first()[j] != sep by {
            assert(s.drop_first()[j] == s[j + 1]);
        }
        assert(s.drop_first()[k - 1] == s[k]);
        lemma_find_sep_is(s.drop_first(), sep, k - 1);
    }
}

/// A string without the separator splits into itself alone.
pub proof fn lemma_split_whole(s: Seq<char>, sep: char)
    requires
        forall|j: int| 0 <= j < s.len() ==> s[j] != sep,
    ensures
        spec_split(s, sep) == seq![s],
{
    lemma_find_sep_none(s, sep);
}

pub proof fn lemma_find_sep_none(s: Seq<char>, sep: char)
    requires
        forall|j: int| 0 <= j < s.len() ==> s[j] != sep,
    ensures
        find_sep(s, sep) == -1,
    decreases s.len(),
{
    if s.len() > 0 {
        assert forall|j: int| 0 <= j < s.drop_first().len() implies s.drop_first()[j] != sep by {
            assert(s.drop_first()[j] == s[j + 1]);
        }
        lemma_find_sep_none(s.drop_first(), sep);
    }
}

/// The views of a sequence of strings.
pub open spec fn views_of(parts: Seq<String>) -> Seq<Seq<char>> {
    parts.map_values(|p: String| p@)
}

/// Splits `s` at every occurrence of `sep`.
pub fn split_char(s: &str, sep: char) -> (parts: Vec<String>)
    ensures
        views_of(parts@) == spec_split(s@, sep),
        parts@.len() >= 1,
{
    let n = s.unicode_len();
    let mut parts: Vec<String> = Vec::new();
    let mut start: usize = 0;
    let mut i: usize = 0;
    proof {
        assert(s@.subrange(0, n as int) =~= s@);
        assert(views_of(parts@) =~= Seq::<Seq<char>>::empty());
        assert(views_of(parts@) + spec_split(s@, sep) =~= spec_split(s@, sep));
    }
    while i < n
        invariant
            0 <= start <= i <= n,
            n == s@.len(),
            forall|j: int| start <= j < i ==> s@[j] != sep,
            spec_split(s@, sep) == views_of(parts@) + spec_split(
                s@.subrange(start as int, n as int),
                sep,
            ),
        decreases n - i,
    {
        let c = s.get_char(i);
        if c == sep {
            let piece = s.substring_char(start, i);
            let ghost old_parts = parts@;
            parts.push(String::from_str(piece));
            proof {
                let rem = s@.subrange(start as int, n as int);
                let k = i - start;
                assert(rem[k] == s@[i as int]);
                assert forall|j: int| 0 <= j < k implies rem[j] != sep by {
                    assert(rem[j] == s@[start + j]);
                }
                lemma_split_step(rem, sep, k);
                assert(rem.subrange(0, k) =~= s@.subrange(start as int, i as int));
                assert(rem.subrange(k + 1, rem.len() as int) =~= s@.subrange(
                    i as int + 1,
                    n as int,
                ));
                assert(piece@ == s@.subrange(start as int, i as int));
                assert(views_of(parts@) =~= views_of(old_parts) + seq![piece@]);
                assert(views_of(old_parts) + spec_split(rem, sep) =~= views_of(parts@)
                    + spec_split(s@.subrange(i as int + 1, n as int), sep));
            }
            start = i + 1;
        }
        i = i + 1;
    }
    let piece = s.substring_char(start, n);
    let ghost old_parts = parts@;
    parts.push(String::from_str(piece));
    proof {
        let rem = s@.subrange(start as int, n as int);
        assert forall|j: int| 0 <= j < rem.len() implies rem[j] != sep by {
            assert(rem[j] == s@[start + j]);
        }
        lemma_split_whole(rem, sep);
        assert(views_of(parts@) =~= views_of(old_parts) + seq![piece@]);
        assert(spec_split(s@, sep) =~= views_of(parts@));
    }
    parts
}

} // verus!
