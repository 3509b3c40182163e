//! Character-level text utilities: conversion between strings and character
//! vectors, the normalization pass applied to model replies before parsing,
//! and the bracket-extraction fallback that digs a JSON array out of
//! surrounding prose.

use vstd::prelude::*;
use vstd::std_specs::iter::IteratorSpec;

verus! {

broadcast use vstd::string::group_string_axioms;

/// The views of a sequence of strings.
pub open spec fn string_views(v: Seq<String>) -> Seq<Seq<char>> {
    v.map_values(|s: String| s@)
}

/// The characters treated as trimmable whitespace.
pub open spec fn is_blank(c: char) -> bool {
    c == ' ' || c == '\t' || c == '\n' || c == '\r'
}

fn is_blank_char(c: char) -> (b: bool)
    ensures
        b == is_blank(c),
{
    c == ' ' || c == '\t' || c == '\n' || c == '\r'
}

/// The characters of `s`, in order, as a vector.
pub fn chars_of(s: &str) -> (v: Vec<char>)
    ensures
        v@ == s@,
{
    let mut v: Vec<char> = Vec::new();
    let mut it = s.chars();
    proof {
        assert(vstd::string::spec_iter(s).remaining() == s@);
    }
    loop
        invariant_except_break
            it.obeys_prophetic_iter_laws(),
            v@ + it.remaining() == s@,
        ensures
            v@ == s@,
        decreases s@.len() - v@.len(),
    {
        match it.next() {
            Some(c) => {
                v.push(c);
                proof {
                    assert(v@ + it.remaining() =~= s@);
                }
            },
            None => {
                proof {
                    assert(v@ + it.remaining() =~= v@);
                }
                break ;
            },
        }
    }
    v
}

/// Relies on std's `String::push`: appends exactly the one character `c`.
#[verifier::external_body]
pub(crate) fn push_char_string(s: &mut String, c: char)
    ensures
        final(s)@ == old(s)@.push(c),
{
    s.push(c);
}

/// The string whose characters are exactly `v`.
pub fn string_of(v: &Vec<char>) -> (s: String)
    ensures
        s@ == v@,
{
    let mut s = String::new();
    let n = v.len();
    for i in 0..n
        invariant
            n == v@.len(),
            s@ == v@.take(i as int),
    {
        push_char_string(&mut s, v[i]);
        proof {
            assert(v@.take(i as int).push(v@[i as int]) =~= v@.take(i as int + 1));
        }
    }
    proof {
        assert(v@.take(n as int) =~= v@);
    }
    s
}

/// The characters of `v` from `from` (inclusive) to `to` (exclusive).
pub fn subrange_chars(v: &Vec<char>, from: usize, to: usize) -> (w: Vec<char>)
    requires
        from <= to <= v@.len(),
    ensures
        w@ == v@.subrange(from as int, to as int),
{
    proof {
        assert(v@.subrange(from as int, from as int) =~= Seq::<char>::empty());
    }
    let mut w: Vec<char> = Vec::new();
    for i in from..to
        invariant
            from <= i <= to <= v@.len(),
            w@ == v@.subrange(from as int, i as int),
    {
        w.push(v[i]);
        proof {
            assert(v@.subrange(from as int, i as int).push(v@[i as int]) =~= v@.subrange(
                from as int,
                i as int + 1,
            ));
        }
    }
    w
}

/// `s` with its leading blanks removed.
pub open spec fn trim_start_spec(s: Seq<char>) -> Seq<char>
    decreases s.len(),
{
    if s.len() > 0 && is_blank(s[0]) {
        trim_start_spec(s.drop_first())
    } else {
        s
    }
}

/// `s` with its trailing blanks removed.
pub open spec fn trim_end_spec(s: Seq<char>) -> Seq<char>
    decreases s.len(),
{
    if s.len() > 0 && is_blank(s.last()) {
        trim_end_spec(s.drop_last())
    } else {
        s
    }
}

/// `s` with leading and trailing blanks removed.
pub open spec fn trim_spec(s: Seq<char>) -> Seq<char> {
    trim_end_spec(trim_start_spec(s))
}

/// Trims leading and trailing blanks.
pub fn trim_chars(v: &Vec<char>) -> (r: Vec<char>)
    ensures
        r@ == trim_spec(v@),
{
    proof {
        assert(v@.skip(0) =~= v@);
    }
    let mut start: usize = 0;
    while start < v.len() && is_blank_char(v[start])
        invariant
            start <= v@.len(),
            trim_start_spec(v@) == trim_start_spec(v@.skip(start as int)),
        decreases v@.len() - start,
    {
        proof {
            assert(v@.skip(start as int).drop_first() =~= v@.skip(start as int + 1));
        }
        start = start + 1;
    }
    proof {
        assert(trim_start_spec(v@) == v@.skip(start as int));
    }
    let mut end: usize = v.len();
    while end > start && is_blank_char(v[end - 1])
        invariant
            start <= end <= v@.len(),
            trim_end_spec(v@.skip(start as int)) == trim_end_spec(
                v@.subrange(start as int, end as int),
            ),
        decreases end,
    {
        proof {
            assert(v@.subrange(start as int, end as int).drop_last() =~= v@.subrange(
                start as int,
                end as int - 1,
            ));
        }
        end = end - 1;
    }
    let mut r: Vec<char> = Vec::new();
    let mut i: usize = start;
    while i < end
        invariant
            start <= i <= end <= v@.len(),
            r@ == v@.subrange(start as int, i as int),
        decreases end - i,
    {
        r.push(v[i]);
        proof {
            assert(v@.subrange(start as int, i as int).push(v@[i as int]) =~= v@.subrange(
                start as int,
                i as int + 1,
            ));
        }
        i = i + 1;
    }
    proof {
        assert(v@.skip(start as int) =~= v@.subrange(start as int, v@.len() as int));
        if end > start {
            assert(!is_blank(v@.subrange(start as int, end as int).last()));
        }
        assert(trim_end_spec(v@.subrange(start as int, end as int)) == v@.subrange(
            start as int,
            end as int,
        ));
    }
    r
}

/// `s` with every two-character sequence `\x` collapsed to the single
/// character `x`, scanning left to right without overlap.
pub open spec fn drop_escape(s: Seq<char>, x: char) -> Seq<char>
    decreases s.len(),
{
    if s.len() >= 2 && s[0] == '\\' && s[1] == x {
        seq![x] + drop_escape(s.skip(2), x)
    } else if s.len() >= 1 {
        seq![s[0]] + drop_escape(s.skip(1), x)
    } else {
        s
    }
}

/// Collapses the over-escaped pair `\x` to `x`, as [`drop_escape`] states.
pub fn drop_escape_chars(v: &Vec<char>, x: char) -> (r: Vec<char>)
    ensures
        r@ == drop_escape(v@, x),
{
    proof {
        assert(v@.skip(0) =~= v@);
    }
    let mut r: Vec<char> = Vec::new();
    let mut i: usize = 0;
    while i < v.len()
        invariant
            i <= v@.len(),
            drop_escape(v@, x) == r@ + drop_escape(v@.skip(i as int), x),
        decreases v@.len() - i,
    {
        if i + 1 < v.len() && v[i] == '\\' && v[i + 1] == x {
            r.push(x);
            proof {
                assert(v@.skip(i as int).skip(2) =~= v@.skip(i as int + 2));
                assert(drop_escape(v@.skip(i as int), x) == seq![x] + drop_escape(
                    v@.skip(i as int + 2),
                    x,
                ));
                assert(drop_escape(v@, x) =~= r@ + drop_escape(v@.skip(i as int + 2), x));
            }
            i = i + 2;
        } else {
            r.push(v[i]);
            proof {
                assert(v@.skip(i as int).skip(1) =~= v@.skip(i as int + 1));
                assert(drop_escape(v@.skip(i as int), x) == seq![v@[i as int]] + drop_escape(
                    v@.skip(i as int + 1),
                    x,
                ));
                assert(drop_escape(v@, x) =~= r@ + drop_escape(v@.skip(i as int + 1), x));
            }
            i = i + 1;
        }
    }
    proof {
        assert(v@.skip(i as int) =~= Seq::<char>::empty());
        assert(drop_escape(v@, x) =~= r@);
    }
    r
}

/// `s` with every occurrence of `x` removed.
pub open spec fn remove_char_spec(s: Seq<char>, x: char) -> Seq<char>
    decreases s.len(),
{
    if s.len() == 0 {
        s
    } else if s[0] == x {
        remove_char_spec(s.drop_first(), x)
    } else {
        seq![s[0]] + remove_char_spec(s.drop_first(), x)
    }
}

/// Removes every occurrence of `x`.
pub fn remove_chars(v: &Vec<char>, x: char) -> (r: Vec<char>)
    ensures
        r@ == remove_char_spec(v@, x),
{
    proof {
        assert(v@.skip(0) =~= v@);
    }
    let mut r: Vec<char> = Vec::new();
    let mut i: usize = 0;
    while i < v.len()
        invariant
            i <= v@.len(),
            remove_char_spec(v@, x) == r@ + remove_char_spec(v@.skip(i as int), x),
        decreases v@.len() - i,
    {
        proof {
            assert(v@.skip(i as int).drop_first() =~= v@.skip(i as int + 1));
        }
        if v[i] == x {
            proof {
                assert(remove_char_spec(v@, x) =~= r@ + remove_char_spec(v@.skip(i as int + 1), x));
            }
        } else {
            r.push(v[i]);
            proof {
                assert(remove_char_spec(v@.skip(i as int), x) == seq![v@[i as int]]
                    + remove_char_spec(v@.skip(i as int + 1), x));
                assert(remove_char_spec(v@, x) =~= r@ + remove_char_spec(v@.skip(i as int + 1), x));
            }
        }
        i = i + 1;
    }
    proof {
        assert(v@.skip(i as int) =~= Seq::<char>::empty());
        assert(remove_char_spec(v@, x) =~= r@);
    }
    r
}

/// The whole normalization pass applied to a reply before parsing: trim,
/// un-escape over-escaped quotes and backslashes, and drop line breaks.
pub open spec fn normalize_spec(s: Seq<char>) -> Seq<char> {
    remove_char_spec(
        remove_char_spec(
            drop_escape(drop_escape(drop_escape(trim_spec(s), '\''), '"'), '\\'),
            '\n',
        ),
        '\r',
    )
}

/// Applies the normalization pass, as [`normalize_spec`] states.
pub fn normalize_chars(v: &Vec<char>) -> (r: Vec<char>)
    ensures
        r@ == normalize_spec(v@),
{
    let t = trim_chars(v);
    let a = drop_escape_chars(&t, '\'');
    let b = drop_escape_chars(&a, '"');
    let c = drop_escape_chars(&b, '\\');
    let d = remove_chars(&c, '\n');
    remove_chars(&d, '\r')
}

/// The position of the first occurrence of `x` in `s`, if any.
pub open spec fn first_occurrence(s: Seq<char>, x: char) -> Option<int>
    decreases s.len(),
{
    if s.len() == 0 {
        None
    } else if s[0] == x {
        Some(0int)
    } else {
        match first_occurrence(s.drop_first(), x) {
            Some(k) => Some(k + 1),
            None => None,
        }
    }
}

/// The position of the last occurrence of `x` in `s`, if any.
pub open spec fn last_occurrence(s: Seq<char>, x: char) -> Option<int>
    decreases s.len(),
{
    if s.len() == 0 {
        None
    } else if s.last() == x {
        Some(s.len() - 1)
    } else {
        last_occurrence(s.drop_last(), x)
    }
}

/// What [`first_occurrence`] finds is the leftmost hit, and `None` means no
/// hit at all.
pub proof fn lemma_first_occurrence_character(s: Seq<char>, x: char)
    ensures
        match first_occurrence(s, x) {
            Some(i) => 0 <= i < s.len() && s[i] == x && (forall|j: int|
                0 <= j < i ==> s[j] != x),
            None => forall|j: int| 0 <= j < s.len() ==> s[j] != x,
        },
    decreases s.len(),
{
    if s.len() > 0 && s[0] != x {
        let t = s.drop_first();
        lemma_first_occurrence_character(t, x);
        match first_occurrence(t, x) {
            Some(k) => {
                assert(first_occurrence(s, x) == Some(k + 1));
                assert(s[k + 1] == t[k]);
                assert forall|j: int| 0 <= j < k + 1 implies s[j] != x by {
                    if j > 0 {
                        assert(s[j] == t[j - 1]);
                        assert(t[j - 1] != x);
                    }
                }
            },
            None => {
                assert(first_occurrence(s, x) is None);
                assert forall|j: int| 0 <= j < s.len() implies s[j] != x by {
                    if j > 0 {
                        assert(s[j] == t[j - 1]);
                        assert(t[j - 1] != x);
                    }
                }
            },
        }
    }
}

/// A position that carries `x` with nothing but non-`x` to its left is what
/// [`first_occurrence`] returns.
pub proof fn lemma_first_occurrence_at(s: Seq<char>, x: char, i: int)
    requires
        0 <= i < s.len(),
        s[i] == x,
        forall|j: int| 0 <= j < i ==> s[j] != x,
    ensures
        first_occurrence(s, x) == Some(i),
    decreases s.len(),
{
    if i > 0 {
        lemma_first_occurrence_at(s.drop_first(), x, i - 1);
    }
}

/// A position that carries `x` with nothing but non-`x` to its right is what
/// [`last_occurrence`] returns.
pub proof fn lemma_last_occurrence_at(s: Seq<char>, x: char, i: int)
    requires
        0 <= i < s.len(),
        s[i] == x,
        forall|j: int| i < j < s.len() ==> s[j] != x,
    ensures
        last_occurrence(s, x) == Some(i),
    decreases s.len(),
{
    if i < s.len() - 1 {
        lemma_last_occurrence_at(s.drop_last(), x, i);
    }
}

/// The substring from the first `[` to the last `]`, when both exist in that
/// order: the fallback used when a reply buries its JSON array in prose.
pub open spec fn extract_array_spec(s: Seq<char>) -> Option<Seq<char>> {
    match (first_occurrence(s, '['), last_occurrence(s, ']')) {
        (Some(i), Some(j)) => if i <= j {
            Some(s.subrange(i, j + 1))
        } else {
            None
        },
        _ => None,
    }
}

pub fn find_first_char(v: &Vec<char>, x: char) -> (r: Option<usize>)
    ensures
        match r {
            Some(i) => i < v@.len() && first_occurrence(v@, x) == Some(i as int),
            None => first_occurrence(v@, x) is None,
        },
{
    let n = v.len();
    for i in 0..n
        invariant
            n == v@.len(),
            forall|j: int| 0 <= j < i ==> v@[j] != x,
    {
        if v[i] == x {
            proof {
                lemma_first_occurrence_at(v@, x, i as int);
            }
            return Some(i);
        }
    }
    proof {
        lemma_first_occurrence_character(v@, x);
    }
    None
}

pub fn find_last_char(v: &Vec<char>, x: char) -> (r: Option<usize>)
    ensures
        match r {
            Some(i) => i < v@.len() && last_occurrence(v@, x) == Some(i as int),
            None => last_occurrence(v@, x) is None,
        },
{
    let mut i: usize = v.len();
    while i > 0
        invariant
            i <= v@.len(),
            forall|j: int| i <= j < v@.len() ==> v@[j] != x,
        decreases i,
    {
        i = i - 1;
        if v[i] == x {
            proof {
                lemma_last_occurrence_at(v@, x, i as int);
            }
            return Some(i);
        }
    }
    proof {
        if v@.len() > 0 {
            lemma_last_occurrence_none(v@, x);
        }
    }
    None
}

proof fn lemma_last_occurrence_none(s: Seq<char>, x: char)
    requires
        forall|j: int| 0 <= j < s.len() ==> s[j] != x,
    ensures
        last_occurrence(s, x) is None,
    decreases s.len(),
{
    if s.len() > 0 {
        lemma_last_occurrence_none(s.drop_last(), x);
    }
}

/// Extracts the bracketed substring, as [`extract_array_spec`] states.
pub fn extract_array(v: &Vec<char>) -> (r: Option<Vec<char>>)
    ensures
        match r {
            Some(w) => extract_array_spec(v@) == Some(w@),
            None => extract_array_spec(v@) is None,
        },
{
    let start = match find_first_char(v, '[') {
        Some(i) => i,
        None => {
            return None;
        },
    };
    let end = match find_last_char(v, ']') {
        Some(j) => j,
        None => {
            return None;
        },
    };
    if start > end {
        return None;
    }
    proof {
        assert(v@.subrange(start as int, start as int) =~= Seq::<char>::empty());
    }
    let n = v.len();
    let mut r: Vec<char> = Vec::new();
    let mut i: usize = start;
    loop
        invariant_except_break
            start <= i <= end,
            end < n,
            n == v@.len(),
            r@ == v@.subrange(start as int, i as int),
        ensures
            r@ == v@.subrange(start as int, end as int + 1),
        decreases end - i,
    {
        r.push(v[i]);
        proof {
            assert(v@.subrange(start as int, i as int).push(v@[i as int]) =~= v@.subrange(
                start as int,
                i as int + 1,
            ));
        }
        if i == end {
            break ;
        }
        i = i + 1;
    }
    Some(r)
}

/// The bracket-extraction fallback recovers a well-bracketed payload intact
/// from any surrounding prose: prose before it free of `[` and prose after it
/// free of `]` cannot change what is extracted.
pub proof fn lemma_bracket_extraction(before: Seq<char>, payload: Seq<char>, after: Seq<char>)
    requires
        payload.len() >= 2,
        payload.first() == '[',
        payload.last() == ']',
        forall|j: int| 0 <= j < before.len() ==> before[j] != '[',
        forall|j: int| 0 <= j < after.len() ==> after[j] != ']',
    ensures
        extract_array_spec(before + payload + after) == Some(payload),
{
    let s = before + payload + after;
    let i = before.len() as int;
    let j = before.len() + payload.len() - 1;
    assert(s[i] == payload.first());
    assert(s[j] == payload.last());
    assert(forall|k: int| 0 <= k < i ==> s[k] == before[k] && s[k] != '[');
    assert(forall|k: int|
        j < k < s.len() ==> s[k] == after[k - before.len() - payload.len()] && s[k] != ']');
    lemma_first_occurrence_at(s, '[', i);
    lemma_last_occurrence_at(s, ']', j);
    assert(s.subrange(i, j + 1) =~= payload);
}

} // verus!
