//! Executable string helpers: conversion between `String`/`&str` and
//! `Vec<char>`, and verified character-level building blocks used by the
//! version, history and publishing logic.

use vstd::prelude::*;

verus! {

use vstd::std_specs::iter::IteratorSpec;

broadcast use vstd::string::axiom_spec_iter, vstd::string::next_postcondition;

/// Relies on String::push: appends the given character to the end of the
/// string.
#[verifier::external_body]
pub(crate) fn push_char(s: &mut String, c: char)
    ensures
        final(s)@ == old(s)@.push(c),
{
    s.push(c);
}

/// Collects the characters of a string slice into a vector, so that the
/// rest of the library can work positionally on `Seq<char>` views.
pub fn chars_of(s: &str) -> (v: Vec<char>)
    ensures
        v@ == s@,
{
    let mut it = s.chars();
    let mut v: Vec<char> = Vec::new();
    loop
        invariant
            v@ + it.remaining() == s@,
            it.decrease() is Some,
        ensures
            v@ == s@,
        decreases it.decrease()->0,
    {
        match it.next() {
            Some(c) => {
                v.push(c);
            },
            None => {
                proof {
                    assert(v@ + it.remaining() =~= v@);
                }
                break ;
            },
        }
    }
    v
}

/// Builds a `String` whose view is exactly the given character sequence.
pub fn string_of(v: &Vec<char>) -> (s: String)
    ensures
        s@ == v@,
{
    let mut s = String::new();
    let mut i: usize = 0;
    while i < v.len()
        invariant
            i <= v.len(),
            s@ == v@.subrange(0, i as int),
        decreases v.len() - i,
    {
        push_char(&mut s, v[i]);
        i += 1;
    }
    proof {
        assert(v@.subrange(0, v.len() as int) =~= v@);
    }
    s
}

/// The successor of a character's low byte: the version policies advance
/// a final letter or digit by one code point this way.
pub open spec fn succ_char(c: char) -> char {
    (((c as u8) + 1) as u8) as char
}

/// `c` is an ASCII decimal digit.
pub open spec fn is_digit(c: char) -> bool {
    '0' <= c && c <= '9'
}

/// `c` is an ASCII letter.
pub open spec fn is_ascii_letter(c: char) -> bool {
    ('a' <= c && c <= 'z') || ('A' <= c && c <= 'Z')
}

/// Executable digit test, equal to [`is_digit`].
pub fn digit_check(c: char) -> (r: bool)
    ensures
        r == is_digit(c),
{
    '0' <= c && c <= '9'
}

/// Executable ASCII-letter test, equal to [`is_ascii_letter`].
pub fn ascii_letter_check(c: char) -> (r: bool)
    ensures
        r == is_ascii_letter(c),
{
    ('a' <= c && c <= 'z') || ('A' <= c && c <= 'Z')
}

/// Executable successor for characters below 0xFF when truncated; matches
/// [`succ_char`] on the ASCII characters the version logic feeds it.
pub fn succ_char_exec(c: char) -> (r: char)
    requires
        (c as u8) < 255,
    ensures
        r == succ_char(c),
{
    ((c as u8) + 1) as char
}

/// The sequence `pat` occurs in `s` at position `i`.
pub open spec fn contains_at(s: Seq<char>, i: int, pat: Seq<char>) -> bool {
    0 <= i && i + pat.len() <= s.len() && s.subrange(i, i + pat.len() as int) == pat
}

/// The sequence `pat` occurs somewhere in `s`.
pub open spec fn contains_seq(s: Seq<char>, pat: Seq<char>) -> bool {
    exists|i: int| contains_at(s, i, pat)
}

/// `s` begins with `pat`.
pub open spec fn starts_with_seq(s: Seq<char>, pat: Seq<char>) -> bool {
    contains_at(s, 0, pat)
}

/// Replaces, left to right and without overlap, the first `n` occurrences
/// of `from` in `s` by `to`; an empty `from` leaves `s` unchanged.
pub open spec fn replacen_s(s: Seq<char>, from: Seq<char>, to: Seq<char>, n: nat) -> Seq<char>
    decreases s.len(),
{
    if from.len() == 0 || s.len() < from.len() || n == 0 {
        s
    } else if s.subrange(0, from.len() as int) == from {
        to + replacen_s(s.skip(from.len() as int), from, to, (n - 1) as nat)
    } else {
        seq![s[0]] + replacen_s(s.skip(1), from, to, n)
    }
}

/// Replaces every occurrence of a non-empty `from` in `s` by `to`.
/// A cap of `s.len()` replacements never binds, because each replacement
/// consumes at least one character of `s`.
pub open spec fn replace_all_s(s: Seq<char>, from: Seq<char>, to: Seq<char>) -> Seq<char> {
    replacen_s(s, from, to, s.len() as nat)
}

/// Character-for-character equality of two vectors.
pub fn vec_chars_eq(a: &Vec<char>, b: &Vec<char>) -> (r: bool)
    ensures
        r == (a@ == b@),
{
    if a.len() != b.len() {
        proof {
            assert(a@ != b@);
        }
        return false;
    }
    let mut i: usize = 0;
    while i < a.len()
        invariant
            i <= a.len(),
            a.len() == b.len(),
            forall|j: int| 0 <= j < i ==> a@[j] == b@[j],
        decreases a.len() - i,
    {
        if a[i] != b[i] {
            return false;
        }
        i += 1;
    }
    proof {
        assert(a@ =~= b@);
    }
    true
}

/// String-slice equality through the character views.
pub fn str_eq(a: &str, b: &str) -> (r: bool)
    ensures
        r == (a@ == b@),
{
    let va = chars_of(a);
    let vb = chars_of(b);
    vec_chars_eq(&va, &vb)
}

/// Does `pat` occur in `s` at position `i`?
pub fn match_at(s: &Vec<char>, i: usize, pat: &Vec<char>) -> (r: bool)
    requires
        i + pat.len() <= s.len(),
    ensures
        r == contains_at(s@, i as int, pat@),
{
    let mut j: usize = 0;
    while j < pat.len()
        invariant
            j <= pat.len(),
            i + pat.len() <= s.len(),
            forall|k: int| 0 <= k < j ==> s@[i + k] == pat@[k],
        decreases pat.len() - j,
    {
        if s[i + j] != pat[j] {
            proof {
                assert(s@.subrange(i as int, i + pat@.len() as int)[j as int] != pat@[j as int]);
            }
            return false;
        }
        j += 1;
    }
    proof {
        assert(s@.subrange(i as int, i + pat@.len() as int) =~= pat@);
    }
    true
}

/// Does `s` begin with `pat`?
pub fn starts_with_vec(s: &Vec<char>, pat: &Vec<char>) -> (r: bool)
    ensures
        r == starts_with_seq(s@, pat@),
{
    if pat.len() > s.len() {
        return false;
    }
    match_at(s, 0, pat)
}

/// Does `pat` occur anywhere in `s`?
pub fn contains_vec(s: &Vec<char>, pat: &Vec<char>) -> (r: bool)
    ensures
        r == contains_seq(s@, pat@),
{
    if pat.len() > s.len() {
        return false;
    }
    if pat.len() == 0 {
        proof {
            assert(s@.subrange(0, 0) =~= pat@);
            assert(contains_at(s@, 0, pat@));
        }
        return true;
    }
    let limit: usize = s.len() - pat.len();
    let mut i: usize = 0;
    while i <= limit
        invariant
            1 <= pat.len() <= s.len(),
            limit == s.len() - pat.len(),
            i <= limit + 1,
            forall|k: int| 0 <= k < i ==> !contains_at(s@, k, pat@),
        decreases limit + 1 - i,
    {
        if match_at(s, i, pat) {
            return true;
        }
        i += 1;
    }
    false
}

/// Appends all characters of `src` to `dst`.
pub fn append_chars(dst: &mut Vec<char>, src: &Vec<char>)
    ensures
        final(dst)@ == old(dst)@ + src@,
{
    let mut i: usize = 0;
    while i < src.len()
        invariant
            i <= src.len(),
            dst@ == old(dst)@ + src@.subrange(0, i as int),
        decreases src.len() - i,
    {
        dst.push(src[i]);
        proof {
            assert(old(dst)@ + src@.subrange(0, i as int) + seq![src@[i as int]] =~= old(dst)@
                + src@.subrange(0, i + 1));
        }
        i += 1;
    }
    proof {
        assert(old(dst)@ + src@.subrange(0, src@.len() as int) =~= old(dst)@ + src@);
    }
}

/// Replaces, left to right, the first `n` occurrences of `from` in `s` by
/// `to`, exactly as [`replacen_s`] describes.
pub fn replacen_vec(s: &Vec<char>, from: &Vec<char>, to: &Vec<char>, n: usize) -> (r: Vec<char>)
    requires
        from.len() > 0,
    ensures
        r@ == replacen_s(s@, from@, to@, n as nat),
{
    let mut out: Vec<char> = Vec::new();
    let mut i: usize = 0;
    let mut count: usize = 0;
    proof {
        assert(s@.skip(0) =~= s@);
    }
    while i < s.len()
        invariant
            i <= s.len(),
            count <= n,
            from.len() > 0,
            replacen_s(s@, from@, to@, n as nat) == out@ + replacen_s(
                s@.skip(i as int),
                from@,
                to@,
                (n - count) as nat,
            ),
        decreases s.len() - i,
    {
        if count < n && from.len() <= s.len() - i && match_at(s, i, from) {
            append_chars(&mut out, to);
            proof {
                let rest = s@.skip(i as int);
                assert(rest.subrange(0, from@.len() as int) =~= s@.subrange(
                    i as int,
                    i + from@.len(),
                ));
                assert(rest.skip(from@.len() as int) =~= s@.skip(i + from@.len()));
            }
            i += from.len();
            count += 1;
        } else {
            proof {
                let rest = s@.skip(i as int);
                if count < n && from.len() <= s.len() - i {
                    assert(rest.subrange(0, from@.len() as int) =~= s@.subrange(
                        i as int,
                        i + from@.len(),
                    ));
                }
                assert(rest.skip(1) =~= s@.skip(i + 1));
                assert(out@ + seq![s@[i as int]] + replacen_s(
                    s@.skip(i + 1),
                    from@,
                    to@,
                    (n - count) as nat,
                ) =~= out@ + (seq![s@[i as int]] + replacen_s(
                    s@.skip(i + 1),
                    from@,
                    to@,
                    (n - count) as nat,
                )));
            }
            out.push(s[i]);
            i += 1;
        }
    }
    proof {
        assert(s@.skip(s@.len() as int) =~= Seq::<char>::empty());
        assert(out@ + s@.skip(s@.len() as int) =~= out@);
    }
    out
}

/// Copies the first `k` characters of `s`.
pub fn take_vec(s: &Vec<char>, k: usize) -> (r: Vec<char>)
    requires
        k <= s.len(),
    ensures
        r@ == s@.take(k as int),
{
    let mut r: Vec<char> = Vec::new();
    let mut i: usize = 0;
    while i < k
        invariant
            i <= k <= s.len(),
            r@ == s@.take(i as int),
        decreases k - i,
    {
        r.push(s[i]);
        proof {
            assert(s@.take(i as int).push(s@[i as int]) =~= s@.take(i + 1));
        }
        i += 1;
    }
    r
}

/// The Unicode white-space characters, as `char::is_whitespace` lists them.
pub open spec fn is_space(c: char) -> bool {
    c == ' ' || c == '\t' || c == '\n' || c == '\u{0B}' || c == '\u{0C}' || c == '\r' || c
        == '\u{85}' || c == '\u{A0}' || c == '\u{1680}' || ('\u{2000}' <= c && c <= '\u{200A}') || c
        == '\u{2028}' || c == '\u{2029}' || c == '\u{202F}' || c == '\u{205F}' || c == '\u{3000}'
}

/// `s` without its leading white space.
pub open spec fn trim_start_s(s: Seq<char>) -> Seq<char>
    decreases s.len(),
{
    if s.len() > 0 && is_space(s[0]) {
        trim_start_s(s.skip(1))
    } else {
        s
    }
}

/// `s` without its trailing white space.
pub open spec fn trim_end_s(s: Seq<char>) -> Seq<char>
    decreases s.len(),
{
    if s.len() > 0 && is_space(s[s.len() - 1]) {
        trim_end_s(s.take(s.len() - 1))
    } else {
        s
    }
}

/// `s` without leading and trailing white space, as `str::trim` yields it.
pub open spec fn trim_s(s: Seq<char>) -> Seq<char> {
    trim_end_s(trim_start_s(s))
}

proof fn lemma_trim_start_at(s: Seq<char>, a: int)
    requires
        0 <= a <= s.len(),
        forall|j: int| 0 <= j < a ==> is_space(s[j]),
        a < s.len() ==> !is_space(s[a]),
    ensures
        trim_start_s(s) == s.skip(a),
    decreases a,
{
    if a == 0 {
        assert(s.skip(0) =~= s);
    } else {
        lemma_trim_start_at(s.skip(1), a - 1);
        assert(s.skip(1).skip(a - 1) =~= s.skip(a));
    }
}

proof fn lemma_trim_end_at(s: Seq<char>, b: int)
    requires
        0 <= b <= s.len(),
        forall|j: int| b <= j < s.len() ==> is_space(s[j]),
        b > 0 ==> !is_space(s[b - 1]),
    ensures
        trim_end_s(s) == s.take(b),
    decreases s.len() - b,
{
    if b == s.len() {
        assert(s.take(b) =~= s);
    } else {
        lemma_trim_end_at(s.take(s.len() - 1), b);
        assert(s.take(s.len() - 1).take(b) =~= s.take(b));
    }
}

/// White space stripped from both ends, exactly as [`trim_s`] describes.
pub fn trim_vec(s: &Vec<char>) -> (r: Vec<char>)
    ensures
        r@ == trim_s(s@),
{
    let mut a: usize = 0;
    while a < s.len() && space_check(s[a as usize])
        invariant
            a <= s.len(),
            forall|j: int| 0 <= j < a ==> is_space(s@[j]),
        decreases s.len() - a,
    {
        a += 1;
    }
    proof {
        lemma_trim_start_at(s@, a as int);
    }
    let mut b: usize = s.len();
    while b > a && space_check(s[b - 1])
        invariant
            a <= b <= s.len(),
            forall|j: int| b <= j < s.len() ==> is_space(s@[j]),
        decreases b,
    {
        b -= 1;
    }
    proof {
        let rest = s@.skip(a as int);
        lemma_trim_end_at(rest, b - a);
        assert(rest.take(b - a) =~= s@.subrange(a as int, b as int));
    }
    let mut r: Vec<char> = Vec::new();
    let mut i: usize = a;
    while i < b
        invariant
            a <= i <= b <= s.len(),
            r@ == s@.subrange(a as int, i as int),
        decreases b - i,
    {
        r.push(s[i]);
        proof {
            assert(s@.subrange(a as int, i as int).push(s@[i as int]) =~= s@.subrange(
                a as int,
                i + 1,
            ));
        }
        i += 1;
    }
    r
}

/// Executable white-space test, equal to [`is_space`].
pub fn space_check(c: char) -> (r: bool)
    ensures
        r == is_space(c),
{
    c == ' ' || c == '\t' || c == '\n' || c == '\u{0B}' || c == '\u{0C}' || c == '\r' || c
        == '\u{85}' || c == '\u{A0}' || c == '\u{1680}' || ('\u{2000}' <= c && c <= '\u{200A}') || c
        == '\u{2028}' || c == '\u{2029}' || c == '\u{202F}' || c == '\u{205F}' || c == '\u{3000}'
}

/// Splitting on `sep`, with `cur` the piece accumulated so far.
pub open spec fn split_rec(s: Seq<char>, sep: char, cur: Seq<char>) -> Seq<Seq<char>>
    decreases s.len(),
{
    if s.len() == 0 {
        seq![cur]
    } else if s[0] == sep {
        seq![cur] + split_rec(s.skip(1), sep, Seq::empty())
    } else {
        split_rec(s.skip(1), sep, cur.push(s[0]))
    }
}

/// The pieces of `s` between occurrences of `sep`, in order, as
/// `str::split` yields them.
pub open spec fn split_on(s: Seq<char>, sep: char) -> Seq<Seq<char>> {
    split_rec(s, sep, Seq::empty())
}

/// Splits `s` on `sep`, exactly as [`split_on`] describes.
pub fn split_vec(s: &Vec<char>, sep: char) -> (r: Vec<Vec<char>>)
    ensures
        r.deep_view() == split_on(s@, sep),
{
    let mut done: Vec<Vec<char>> = Vec::new();
    let mut cur: Vec<char> = Vec::new();
    let mut i: usize = 0;
    proof {
        assert(s@.skip(0) =~= s@);
    }
    while i < s.len()
        invariant
            i <= s.len(),
            split_on(s@, sep) == done.deep_view() + split_rec(s@.skip(i as int), sep, cur@),
        decreases s.len() - i,
    {
        proof {
            assert(s@.skip(i as int).skip(1) =~= s@.skip(i + 1));
            assert(s@.skip(i as int)[0] == s@[i as int]);
        }
        if s[i] == sep {
            let ghost old_done = done.deep_view();
            let ghost old_cur = cur@;
            done.push(cur);
            cur = Vec::new();
            proof {
                assert(done.deep_view() =~~= old_done + seq![old_cur]);
                assert(old_done + (seq![old_cur] + split_rec(s@.skip(i + 1), sep, Seq::empty()))
                    =~~= (old_done + seq![old_cur]) + split_rec(s@.skip(i + 1), sep, Seq::empty()));
            }
        } else {
            cur.push(s[i]);
        }
        i += 1;
    }
    proof {
        assert(s@.skip(s@.len() as int) =~= Seq::<char>::empty());
    }
    let ghost old_done = done.deep_view();
    let ghost old_cur = cur@;
    done.push(cur);
    proof {
        assert(done.deep_view() =~~= old_done + seq![old_cur]);
    }
    done
}

/// What follows the last occurrence of `sep` in `s`; all of `s` when `sep`
/// does not occur. This is the final piece of [`split_on`].
pub open spec fn after_last_s(s: Seq<char>, sep: char) -> Seq<char>
    decreases s.len(),
{
    if s.len() == 0 {
        s
    } else if s[s.len() - 1] == sep {
        Seq::empty()
    } else {
        after_last_s(s.take(s.len() - 1), sep).push(s[s.len() - 1])
    }
}

proof fn lemma_after_last_none(s: Seq<char>, sep: char)
    requires
        forall|j: int| 0 <= j < s.len() ==> s[j] != sep,
    ensures
        after_last_s(s, sep) == s,
    decreases s.len(),
{
    if s.len() > 0 {
        lemma_after_last_none(s.take(s.len() - 1), sep);
        assert(s.take(s.len() - 1).push(s[s.len() - 1]) =~= s);
    }
}

proof fn lemma_after_last_at(s: Seq<char>, sep: char, j: int)
    requires
        0 <= j < s.len(),
        s[j] == sep,
        forall|m: int| j < m < s.len() ==> s[m] != sep,
    ensures
        after_last_s(s, sep) == s.skip(j + 1),
    decreases s.len(),
{
    if j == s.len() - 1 {
        assert(s.skip(j + 1) =~= Seq::<char>::empty());
    } else {
        lemma_after_last_at(s.take(s.len() - 1), sep, j);
        assert(s.take(s.len() - 1).skip(j + 1).push(s[s.len() - 1]) =~= s.skip(j + 1));
    }
}

/// The characters after the last occurrence of `sep`, exactly as
/// [`after_last_s`] describes.
pub fn after_last_vec(s: &Vec<char>, sep: char) -> (r: Vec<char>)
    ensures
        r@ == after_last_s(s@, sep),
{
    let mut j: usize = s.len();
    while j > 0 && s[j - 1] != sep
        invariant
            j <= s.len(),
            forall|m: int| j <= m < s.len() ==> s@[m] != sep,
        decreases j,
    {
        j -= 1;
    }
    proof {
        if j == 0 {
            lemma_after_last_none(s@, sep);
        } else {
            lemma_after_last_at(s@, sep, j - 1);
        }
    }
    let mut r: Vec<char> = Vec::new();
    let mut i: usize = j;
    while i < s.len()
        invariant
            j <= i <= s.len(),
            r@ == s@.subrange(j as int, i as int),
        decreases s.len() - i,
    {
        r.push(s[i]);
        proof {
            assert(s@.subrange(j as int, i as int).push(s@[i as int]) =~= s@.subrange(
                j as int,
                i + 1,
            ));
        }
        i += 1;
    }
    proof {
        if j == 0 {
            assert(s@.subrange(0, s@.len() as int) =~= s@);
        } else {
            assert(s@.subrange(j as int, s@.len() as int) =~= s@.skip(j as int));
        }
    }
    r
}

} // verus!
