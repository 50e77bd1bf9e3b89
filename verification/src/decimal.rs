//! Decimal reading and writing of `u32` values, as `str::parse::<u32>` and
//! decimal formatting behave on version segments.

use vstd::prelude::*;
use crate::strutil::is_digit;

verus! {

/// The numeric value of an ASCII digit.
pub open spec fn digit_val(c: char) -> nat {
    ((c as u32) - ('0' as u32)) as nat
}

/// Every character of `s` is an ASCII digit.
pub open spec fn all_digits(s: Seq<char>) -> bool {
    forall|i: int| 0 <= i < s.len() ==> is_digit(#[trigger] s[i])
}

/// The value of a digit string read in base ten.
pub open spec fn dec_val(s: Seq<char>) -> nat
    decreases s.len(),
{
    if s.len() == 0 {
        0
    } else {
        dec_val(s.take(s.len() - 1)) * 10 + digit_val(s[s.len() - 1])
    }
}

/// `s` with a single leading `+` sign removed, as `str::parse` accepts it.
pub open spec fn strip_plus(s: Seq<char>) -> Seq<char> {
    if s.len() > 0 && s[0] == '+' {
        s.skip(1)
    } else {
        s
    }
}

/// `s` is accepted by `str::parse::<u32>`: an optional `+`, then at least
/// one digit, with a value that fits in `u32`.
pub open spec fn parses_as_u32(s: Seq<char>) -> bool {
    let d = strip_plus(s);
    d.len() > 0 && all_digits(d) && dec_val(d) <= u32::MAX
}

/// The value `str::parse::<u32>` reads from `s`.
pub open spec fn u32_of_str(s: Seq<char>) -> nat {
    dec_val(strip_plus(s))
}

/// A digit string's value only grows as more digits are appended.
proof fn lemma_dec_val_prefix_mono(s: Seq<char>, k: int)
    requires
        0 <= k <= s.len(),
    ensures
        dec_val(s.take(k)) <= dec_val(s),
    decreases s.len() - k,
{
    if k < s.len() {
        lemma_dec_val_prefix_mono(s.take(s.len() - 1), k);
        assert(s.take(s.len() - 1).take(k) =~= s.take(k));
        assert(dec_val(s.take(s.len() - 1)) * 10 >= dec_val(s.take(s.len() - 1))) by {
            assert(dec_val(s.take(s.len() - 1)) * 10 == dec_val(s.take(s.len() - 1)) + dec_val(
                s.take(s.len() - 1),
            ) * 9) by (nonlinear_arith);
        }
    } else {
        assert(s.take(k) =~= s);
    }
}

/// Reads a digit vector in base ten, exactly as [`dec_val`] describes,
/// reporting overflow past `u32::MAX` and any non-digit character.
fn parse_digits(d: &Vec<char>) -> (r: Option<u32>)
    ensures
        r is Some <==> (d@.len() > 0 && all_digits(d@) && dec_val(d@) <= u32::MAX),
        r is Some ==> r->0 == dec_val(d@),
{
    if d.len() == 0 {
        return None;
    }
    let mut acc: u64 = 0;
    let mut i: usize = 0;
    proof {
        assert(d@.take(0) =~= Seq::<char>::empty());
    }
    while i < d.len()
        invariant
            i <= d.len(),
            forall|j: int| 0 <= j < i ==> is_digit(#[trigger] d@[j]),
            acc == dec_val(d@.take(i as int)),
            acc <= u32::MAX,
        decreases d.len() - i,
    {
        let c = d[i];
        if !crate::strutil::digit_check(c) {
            return None;
        }
        let dv: u64 = (c as u32 - '0' as u32) as u64;
        proof {
            assert(acc * 10 + dv <= (u32::MAX as u64) * 10 + 9) by (nonlinear_arith)
                requires
                    acc <= u32::MAX,
                    dv <= 9,
            ;
        }
        let next: u64 = acc * 10 + dv;
        proof {
            assert(d@.take(i + 1).take(i as int) =~= d@.take(i as int));
            assert(dec_val(d@.take(i + 1)) == dec_val(d@.take(i as int)) * 10 + digit_val(
                d@[i as int],
            ));
        }
        if next > u32::MAX as u64 {
            proof {
                lemma_dec_val_prefix_mono(d@, i + 1);
            }
            return None;
        }
        acc = next;
        i += 1;
    }
    proof {
        assert(d@.take(d@.len() as int) =~= d@);
    }
    Some(acc as u32)
}

/// Reads `v` as `str::parse::<u32>` would: an optional leading `+`, then
/// decimal digits whose value fits in `u32`.
pub fn parse_u32(v: &Vec<char>) -> (r: Option<u32>)
    ensures
        r is Some <==> parses_as_u32(v@),
        r is Some ==> r->0 == u32_of_str(v@),
{
    if v.len() > 0 && v[0] == '+' {
        let mut d: Vec<char> = Vec::new();
        let mut i: usize = 1;
        while i < v.len()
            invariant
                1 <= i <= v.len(),
                d@ == v@.subrange(1, i as int),
            decreases v.len() - i,
        {
            d.push(v[i]);
            proof {
                assert(v@.subrange(1, i as int).push(v@[i as int]) =~= v@.subrange(1, i + 1));
            }
            i += 1;
        }
        proof {
            assert(v@.subrange(1, v@.len() as int) =~= v@.skip(1));
        }
        parse_digits(&d)
    } else {
        parse_digits(v)
    }
}

/// The digit character for a value below ten.
pub open spec fn digit_char_s(d: nat) -> char {
    ((('0' as u32) + d) as u32) as char
}

/// `n` written in base ten, most significant digit first, without leading
/// zeros.
pub open spec fn dec_str(n: nat) -> Seq<char>
    decreases n,
{
    if n < 10 {
        seq![digit_char_s(n)]
    } else {
        dec_str(n / 10).push(digit_char_s(n % 10))
    }
}

/// The rendering of a value consists of digits and reads back to the same
/// value.
pub proof fn lemma_dec_str_val(n: nat)
    ensures
        dec_str(n).len() > 0,
        all_digits(dec_str(n)),
        dec_val(dec_str(n)) == n,
    decreases n,
{
    if n < 10 {
        assert(dec_str(n).take(0) =~= Seq::<char>::empty());
        assert(dec_val(dec_str(n)) == dec_val(Seq::<char>::empty()) * 10 + digit_val(
            digit_char_s(n),
        ));
    } else {
        lemma_dec_str_val(n / 10);
        assert(n / 10 < n && n % 10 < 10 && (n / 10) * 10 + n % 10 == n) by (nonlinear_arith)
            requires
                n >= 10,
        ;
        assert(dec_str(n).take(dec_str(n).len() - 1) =~= dec_str(n / 10));
        assert(dec_val(dec_str(n)) == dec_val(dec_str(n / 10)) * 10 + digit_val(
            digit_char_s(n % 10),
        ));
    }
}

/// The digit character for a value below ten.
fn digit_char(d: u32) -> (c: char)
    requires
        d < 10,
    ensures
        is_digit(c),
        digit_val(c) == d,
        c == digit_char_s(d as nat),
{
    ((('0' as u8) + d as u8) as u8) as char
}

/// Writes `n` in base ten, most significant digit first, exactly as
/// [`dec_str`] describes.
pub fn u32_digits(n: u32) -> (r: Vec<char>)
    ensures
        r@ == dec_str(n as nat),
        r@.len() > 0,
        all_digits(r@),
        dec_val(r@) == n,
    decreases n,
{
    proof {
        lemma_dec_str_val(n as nat);
    }
    if n < 10 {
        let c = digit_char(n);
        let mut r: Vec<char> = Vec::new();
        r.push(c);
        proof {
            assert(r@.take(r@.len() - 1) =~= Seq::<char>::empty());
            assert(dec_val(r@) == dec_val(Seq::<char>::empty()) * 10 + digit_val(c));
        }
        r
    } else {
        proof {
            assert(n / 10 < n && n / 10 >= 1 && n % 10 < 10 && (n / 10) * 10 + n % 10 == n)
                by (nonlinear_arith)
                requires
                    n >= 10,
            ;
        }
        let mut r = u32_digits(n / 10);
        let c = digit_char(n % 10);
        let ghost prev = r@;
        r.push(c);
        proof {
            assert(r@.take(r@.len() - 1) =~= prev);
            assert(dec_val(r@) == dec_val(prev) * 10 + digit_val(c));
        }
        r
    }
}

} // verus!
