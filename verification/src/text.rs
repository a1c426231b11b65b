//! Verified text utilities: substring search, splitting on a separator
//! character, and joining segments back together.
//!
//! These are the building blocks for specifier path normalization, the
//! legacy-module classifier and line lookup in the source-map registry.

use vstd::prelude::*;

verus! {

/// True when `pat` occurs in `s` starting at index `i`.
pub open spec fn match_at(s: Seq<char>, pat: Seq<char>, i: int) -> bool {
    0 <= i && i + pat.len() <= s.len() && s.subrange(i, i + pat.len()) == pat
}

/// True when `pat` occurs somewhere in `s`.
pub open spec fn contains_seq(s: Seq<char>, pat: Seq<char>) -> bool {
    exists|i: int| match_at(s, pat, i)
}

/// Index of the first occurrence of `sep` in `s`, or -1 if absent.
pub open spec fn first_occ(s: Seq<char>, sep: char) -> int
    decreases s.len(),
{
    if s.len() == 0 {
        -1
    } else if s[0] == sep {
        0
    } else {
        let r = first_occ(s.subrange(1, s.len() as int), sep);
        if r < 0 {
            -1
        } else {
            r + 1
        }
    }
}

/// The first occurrence index is in bounds, holds `sep`, and nothing
/// before it does; -1 means `sep` does not occur at all.
pub proof fn lemma_first_occ_props(s: Seq<char>, sep: char)
    ensures
        first_occ(s, sep) >= 0 ==> {
            &&& first_occ(s, sep) < s.len()
            &&& s[first_occ(s, sep)] == sep
            &&& forall|k: int| 0 <= k < first_occ(s, sep) ==> s[k] != sep
        },
        first_occ(s, sep) < 0 ==> forall|k: int| 0 <= k < s.len() ==> s[k] != sep,
    decreases s.len(),
{
    if s.len() == 0 {
    } else if s[0] == sep {
    } else {
        let t = s.subrange(1, s.len() as int);
        lemma_first_occ_props(t, sep);
        if first_occ(s, sep) >= 0 {
            assert forall|k: int| 0 <= k < first_occ(s, sep) implies s[k] != sep by {
                if k > 0 {
                    assert(t[k - 1] == s[k]);
                }
            }
        } else {
            assert forall|k: int| 0 <= k < s.len() implies s[k] != sep by {
                if k > 0 {
                    assert(t[k - 1] == s[k]);
                }
            }
        }
    }
}

/// If nothing before `i` is `sep` and `s[i]` is, then `i` is the first
/// occurrence.
pub proof fn lemma_first_occ_is(s: Seq<char>, sep: char, i: int)
    requires
        0 <= i < s.len(),
        s[i] == sep,
        forall|k: int| 0 <= k < i ==> s[k] != sep,
    ensures
        first_occ(s, sep) == i,
{
    lemma_first_occ_props(s, sep);
    let r = first_occ(s, sep);
    if r < 0 {
    } else if r < i {
    } else if r > i {
    }
}

/// If `sep` does not occur in `s`, the first occurrence is -1.
pub proof fn lemma_first_occ_absent(s: Seq<char>, sep: char)
    requires
        forall|k: int| 0 <= k < s.len() ==> s[k] != sep,
    ensures
        first_occ(s, sep) == -1,
{
    lemma_first_occ_props(s, sep);
    let r = first_occ(s, sep);
    if r >= 0 {
        assert(s[r] == sep);
    }
}

/// `s` split on `sep`: always one more segment than there are
/// separators, so `""` splits to one empty segment.
pub open spec fn spec_split(s: Seq<char>, sep: char) -> Seq<Seq<char>>
    decreases s.len(),
    via spec_split_decreases
{
    let i = first_occ(s, sep);
    if i >= 0 {
        seq![s.subrange(0, i)] + spec_split(s.subrange(i + 1, s.len() as int), sep)
    } else {
        seq![s]
    }
}

#[via_fn]
proof fn spec_split_decreases(s: Seq<char>, sep: char) {
    lemma_first_occ_props(s, sep);
}

/// Segments joined with `sep` between each pair.
pub open spec fn spec_join(parts: Seq<Seq<char>>, sep: char) -> Seq<char>
    decreases parts.len(),
{
    if parts.len() == 0 {
        Seq::empty()
    } else if parts.len() == 1 {
        parts[0]
    } else {
        spec_join(parts.drop_last(), sep) + seq![sep] + parts.last()
    }
}

/// Whether `pat` occurs in `s` starting exactly at `i`.
fn matches_at(s: &str, pat: &str, i: usize) -> (r: bool)
    requires
        i + pat@.len() <= s@.len(),
    ensures
        r == match_at(s@, pat@, i as int),
{
    let sn = s.unicode_len();
    let m = pat.unicode_len();
    let mut j: usize = 0;
    while j < m
        invariant
            j <= m,
            m == pat@.len(),
            sn == s@.len(),
            i + m <= sn,
            forall|k: int| 0 <= k < j ==> s@[i + k] == pat@[k],
        decreases m - j,
    {
        if s.get_char(i + j) != pat.get_char(j) {
            assert(s@.subrange(i as int, i + m) != pat@) by {
                assert(s@.subrange(i as int, i + m)[j as int] != pat@[j as int]);
            }
            return false;
        }
        j += 1;
    }
    assert(s@.subrange(i as int, i + m) =~= pat@);
    true
}

/// Whether `pat` occurs anywhere in `s`.
pub fn contains_sub(s: &str, pat: &str) -> (r: bool)
    ensures
        r == contains_seq(s@, pat@),
{
    let n = s.unicode_len();
    let m = pat.unicode_len();
    if m > n {
        assert(!contains_seq(s@, pat@)) by {
            assert(forall|i: int| !match_at(s@, pat@, i));
        }
        return false;
    }
    if m == 0 {
        assert(s@.subrange(0, 0) =~= pat@);
        assert(match_at(s@, pat@, 0));
        return true;
    }
    let mut i: usize = 0;
    while i <= n - m
        invariant
            n == s@.len(),
            m == pat@.len(),
            1 <= m <= n,
            i <= n - m + 1,
            forall|k: int| 0 <= k < i ==> !match_at(s@, pat@, k),
        decreases n - i,
    {
        if matches_at(s, pat, i) {
            return true;
        }
        i += 1;
    }
    assert(!contains_seq(s@, pat@)) by {
        assert(forall|k: int| k >= i ==> !match_at(s@, pat@, k));
    }
    false
}

/// Splits `s` on `sep`; mirrors `spec_split` exactly.
pub fn split_char(s: &str, sep: char) -> (r: Vec<String>)
    ensures
        r@.map_values(|t: String| t@) == spec_split(s@, sep),
        r@.len() >= 1,
{
    let n = s.unicode_len();
    let mut parts: Vec<String> = Vec::new();
    let mut start: usize = 0;
    let mut i: usize = 0;
    proof {
        let f = |t: String| t@;
        assert(s@.subrange(0, n as int) =~= s@);
        assert(parts@.map_values(f) + spec_split(s@, sep) =~= spec_split(s@, sep));
    }
    while i < n
        invariant
            n == s@.len(),
            start <= i <= n,
            forall|k: int| start <= k < i ==> s@[k] != sep,
            spec_split(s@, sep) == parts@.map_values(|t: String| t@) + spec_split(
                s@.subrange(start as int, n as int),
                sep,
            ),
        decreases n - i,
    {
        if s.get_char(i) == sep {
            let piece = String::from_str(s.substring_char(start, i));
            proof {
                let tail = s@.subrange(start as int, n as int);
                assert(forall|k: int| 0 <= k < i - start ==> tail[k] != sep);
                assert(tail[i - start as int] == sep);
                lemma_first_occ_is(tail, sep, i - start as int);
                assert(tail.subrange(0, i - start as int) =~= s@.subrange(
                    start as int,
                    i as int,
                ));
                assert(tail.subrange(i - start as int + 1, tail.len() as int) =~= s@.subrange(
                    i as int + 1,
                    n as int,
                ));
                let f = |t: String| t@;
                assert(parts@.push(piece).map_values(f) =~= parts@.map_values(f) + seq![piece@]);
                assert(spec_split(tail, sep) == seq![tail.subrange(0, i - start as int)]
                    + spec_split(tail.subrange(i - start as int + 1, tail.len() as int), sep));
                assert(parts@.map_values(f) + spec_split(tail, sep) =~= parts@.push(
                    piece,
                ).map_values(f) + spec_split(s@.subrange(i as int + 1, n as int), sep));
            }
            parts.push(piece);
            start = i + 1;
        }
        i += 1;
    }
    let last = String::from_str(s.substring_char(start, n));
    proof {
        let tail = s@.subrange(start as int, n as int);
        assert(forall|k: int| 0 <= k < tail.len() ==> tail[k] != sep);
        lemma_first_occ_absent(tail, sep);
        assert(spec_split(tail, sep) == seq![tail]);
        let f = |t: String| t@;
        assert(parts@.push(last).map_values(f) =~= parts@.map_values(f) + seq![last@]);
        assert(parts@.map_values(f) + seq![tail] =~= parts@.map_values(f) + seq![last@]);
    }
    parts.push(last);
    parts
}

/// Joins `parts` with the single-character separator `sep`; mirrors
/// `spec_join` exactly.
pub fn join_char(parts: &Vec<String>, sep: &str) -> (r: String)
    requires
        sep@.len() == 1,
    ensures
        r@ == spec_join(parts@.map_values(|t: String| t@), sep@[0]),
{
    let ghost sep_c: char = sep@[0];
    proof {
        assert(sep@ =~= seq![sep_c]);
    }
    let mut out = String::new();
    let n = parts.len();
    let mut i: usize = 0;
    while i < n
        invariant
            n == parts@.len(),
            i <= n,
            sep@ == seq![sep_c],
            out@ == spec_join(parts@.map_values(|t: String| t@).take(i as int), sep_c),
        decreases n - i,
    {
        if i > 0 {
            out.append(sep);
        }
        out.append(parts[i].as_str());
        proof {
            let f = |t: String| t@;
            let views = parts@.map_values(f);
            let upto = views.take(i as int + 1);
            assert(upto.drop_last() =~= views.take(i as int));
            assert(upto.last() == parts@[i as int]@);
            assert(out@ == spec_join(upto, sep_c));
        }
        i += 1;
    }
    proof {
        let f = |t: String| t@;
        assert(parts@.map_values(f).take(n as int) =~= parts@.map_values(f));
    }
    out
}

/// An owned copy of a byte buffer.
pub fn copy_bytes(v: &Vec<u8>) -> (r: Vec<u8>)
    ensures
        r@ == v@,
{
    let n = v.len();
    let mut out: Vec<u8> = Vec::new();
    let mut i: usize = 0;
    while i < n
        invariant
            n == v@.len(),
            i <= n,
            out@ == v@.take(i as int),
        decreases n - i,
    {
        out.push(v[i]);
        proof {
            assert(out@ =~= v@.take(i as int + 1));
        }
        i += 1;
    }
    proof {
        assert(v@.take(n as int) =~= v@);
    }
    out
}

} // verus!
