//! Character-level text operations.
//!
//! Strings are modelled by their sequence of Unicode scalar values
//! (`Seq<char>`). The executable functions work on `Vec<char>` so that every
//! step is visible to the verifier; `to_chars` and `from_chars` move between
//! the two representations.

use vstd::prelude::*;
use vstd::string::*;

verus! {

/// `String::push` of the standard library appends one character to the end
/// of the string and changes nothing else.
pub assume_specification[ String::push ](s: &mut String, ch: char)
    ensures
        final(s)@ == old(s)@.push(ch),
;

/// Equality of two string slices in the standard library holds exactly when
/// both hold the same sequence of characters.
pub assume_specification[ <str as PartialEq>::eq ](a: &str, b: &str) -> (r: bool)
    ensures
        r == (a@ == b@),
;

/// `s` with every occurrence of `pat` taken out, scanning from the left and
/// never looking again at text that a match has consumed. An empty pattern
/// removes nothing.
pub open spec fn without(s: Seq<char>, pat: Seq<char>) -> Seq<char>
    decreases s.len(),
{
    if pat.len() == 0 || s.len() < pat.len() {
        s
    } else if pat.is_prefix_of(s) {
        without(s.skip(pat.len() as int), pat)
    } else {
        seq![s[0]] + without(s.skip(1), pat)
    }
}

/// Every character of `s` satisfies `keep`.
pub open spec fn all_chars(s: Seq<char>, keep: spec_fn(char) -> bool) -> bool {
    forall|i: int| 0 <= i < s.len() ==> keep(#[trigger] s[i])
}

/// The characters of a string slice, in order.
pub fn to_chars(s: &str) -> (v: Vec<char>)
    ensures
        v@ == s@,
{
    let mut v: Vec<char> = Vec::new();
    for c in it: s.chars()
        invariant
            v@ == it.seq().take(it.index() as int),
            it.seq() == s@,
    {
        v.push(c);
    }
    v
}

/// The string made of the characters `v[from..to]`.
pub fn substring(v: &Vec<char>, from: usize, to: usize) -> (s: String)
    requires
        from <= to <= v.len(),
    ensures
        s@ == v@.subrange(from as int, to as int),
{
    let mut s = String::new();
    let mut i: usize = from;
    while i < to
        invariant
            from <= i <= to <= v.len(),
            s@ == v@.subrange(from as int, i as int),
        decreases to - i,
    {
        s.push(v[i]);
        i = i + 1;
        assert(v@.subrange(from as int, i as int) == v@.subrange(from as int, i - 1).push(
            v@[i - 1],
        ));
    }
    s
}

/// The string made of all the characters of `v`.
pub fn from_chars(v: &Vec<char>) -> (s: String)
    ensures
        s@ == v@,
{
    let s = substring(v, 0, v.len());
    assert(v@.subrange(0, v.len() as int) == v@);
    s
}

/// Whether `pat` occurs in `s` starting at index `at`.
pub fn occurs_at(s: &Vec<char>, at: usize, pat: &Vec<char>) -> (found: bool)
    requires
        at <= s.len(),
    ensures
        found == pat@.is_prefix_of(s@.skip(at as int)),
{
    let n = s.len();
    let m = pat.len();
    if n - at < m {
        return false;
    }
    let mut k: usize = 0;
    while k < m
        invariant
            at <= n == s.len(),
            m == pat.len(),
            m <= n - at,
            k <= m,
            forall|j: int| 0 <= j < k ==> s@[at + j] == pat@[j],
        decreases m - k,
    {
        if s[at + k] != pat[k] {
            assert(s@.skip(at as int).subrange(0, m as int)[k as int] != pat@[k as int]);
            return false;
        }
        k = k + 1;
    }
    assert(s@.skip(at as int).subrange(0, m as int) =~= pat@);
    true
}

/// Whether `s` begins with `pat`.
pub fn has_prefix(s: &Vec<char>, pat: &Vec<char>) -> (found: bool)
    ensures
        found == pat@.is_prefix_of(s@),
{
    assert(s@.skip(0) == s@);
    occurs_at(s, 0, pat)
}

/// Whether the character `c` occurs in `s` at index `from` or later.
pub fn has_char_from(s: &Vec<char>, from: usize, c: char) -> (found: bool)
    requires
        from <= s.len(),
    ensures
        found == s@.skip(from as int).contains(c),
{
    let mut i: usize = from;
    while i < s.len()
        invariant
            from <= i <= s.len(),
            forall|j: int| from <= j < i ==> s@[j] != c,
        decreases s.len() - i,
    {
        if s[i] == c {
            assert(s@.skip(from as int)[i - from] == c);
            return true;
        }
        i = i + 1;
    }
    false
}

/// Removes every occurrence of `pat` from `s`.
pub fn remove_all(s: &Vec<char>, pat: &Vec<char>) -> (out: Vec<char>)
    ensures
        out@ == without(s@, pat@),
{
    let n = s.len();
    let m = pat.len();
    let mut out: Vec<char> = Vec::new();
    let mut i: usize = 0;
    assert(s@.skip(0) == s@);
    while i < n
        invariant
            i <= n == s.len(),
            m == pat.len(),
            without(s@, pat@) == out@ + without(s@.skip(i as int), pat@),
        decreases n - i,
    {
        let ghost rest = s@.skip(i as int);
        if m > 0 && occurs_at(s, i, pat) {
            assert(rest.skip(m as int) == s@.skip(i + m));
            i = i + m;
        } else {
            proof {
                if m > 0 && rest.len() >= m {
                    assert(rest.skip(1) == s@.skip(i + 1));
                    assert(out@ + (seq![rest[0]] + without(rest.skip(1), pat@)) == out@.push(
                        s@[i as int],
                    ) + without(s@.skip(i + 1), pat@));
                } else {
                    lemma_without_short(rest, pat@);
                    lemma_without_short(rest.skip(1), pat@);
                    assert(rest.skip(1) == s@.skip(i + 1));
                    assert(out@ + rest == out@.push(s@[i as int]) + rest.skip(1));
                }
            }
            out.push(s[i]);
            i = i + 1;
        }
    }
    assert(out@ + Seq::<char>::empty() == out@);
    out
}

/// Text shorter than the pattern, or any text under the empty pattern, is
/// left as it is.
pub proof fn lemma_without_short(s: Seq<char>, pat: Seq<char>)
    requires
        pat.len() == 0 || s.len() < pat.len(),
    ensures
        without(s, pat) == s,
{
}

/// Taking occurrences of a pattern out adds no character: whatever holds of
/// every character of the text holds of every character that is left.
pub proof fn lemma_without_keeps(s: Seq<char>, pat: Seq<char>, keep: spec_fn(char) -> bool)
    requires
        all_chars(s, keep),
    ensures
        all_chars(without(s, pat), keep),
    decreases s.len(),
{
    if pat.len() == 0 || s.len() < pat.len() {
    } else if pat.is_prefix_of(s) {
        let rest = s.skip(pat.len() as int);
        assert forall|i: int| 0 <= i < rest.len() implies keep(#[trigger] rest[i]) by {
            assert(rest[i] == s[i + pat.len()]);
        }
        lemma_without_keeps(rest, pat, keep);
    } else {
        let rest = s.skip(1);
        assert forall|i: int| 0 <= i < rest.len() implies keep(#[trigger] rest[i]) by {
            assert(rest[i] == s[i + 1]);
        }
        lemma_without_keeps(rest, pat, keep);
        assert(all_chars(seq![s[0]], keep));
        lemma_all_chars_concat(seq![s[0]], without(rest, pat), keep);
    }
}

/// What holds of every character of two texts holds of every character of
/// the two put together.
pub proof fn lemma_all_chars_concat(a: Seq<char>, b: Seq<char>, keep: spec_fn(char) -> bool)
    requires
        all_chars(a, keep),
        all_chars(b, keep),
    ensures
        all_chars(a + b, keep),
{
    assert forall|i: int| 0 <= i < (a + b).len() implies keep(#[trigger] (a + b)[i]) by {
        if i < a.len() {
            assert((a + b)[i] == a[i]);
        } else {
            assert((a + b)[i] == b[i - a.len()]);
        }
    }
}

} // verus!
