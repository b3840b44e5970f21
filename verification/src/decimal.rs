//! Decimal rendering and parsing of the integers that appear in reports and
//! serialized suites, with proofs that parsing inverts rendering.

use vstd::prelude::*;
use vstd::string::StrSliceExecFns;
use vstd::string::StringExecFns;

verus! {

/// Relies on `alloc::string::String::push`: appends the given character to
/// the end of the string.
pub assume_specification[ String::push ](s: &mut String, ch: char)
    ensures
        final(s)@ == old(s)@.push(ch),
;

/// The decimal digit character for `d` (meaningful for `d < 10`).
pub open spec fn dchar(d: nat) -> char {
    if d == 0 {
        '0'
    } else if d == 1 {
        '1'
    } else if d == 2 {
        '2'
    } else if d == 3 {
        '3'
    } else if d == 4 {
        '4'
    } else if d == 5 {
        '5'
    } else if d == 6 {
        '6'
    } else if d == 7 {
        '7'
    } else if d == 8 {
        '8'
    } else {
        '9'
    }
}

/// Whether `c` is a decimal digit character.
pub open spec fn is_digit_char(c: char) -> bool {
    c == '0' || c == '1' || c == '2' || c == '3' || c == '4' || c == '5' || c == '6' || c == '7'
        || c == '8' || c == '9'
}

/// The value of the digit character `c` (10 for a non-digit).
pub open spec fn digit_val(c: char) -> nat {
    if c == '0' {
        0
    } else if c == '1' {
        1
    } else if c == '2' {
        2
    } else if c == '3' {
        3
    } else if c == '4' {
        4
    } else if c == '5' {
        5
    } else if c == '6' {
        6
    } else if c == '7' {
        7
    } else if c == '8' {
        8
    } else if c == '9' {
        9
    } else {
        10
    }
}

/// The decimal digit sequence of `n`, most significant digit first, with no
/// leading zeros (a single `0` for zero).
pub open spec fn spec_dec(n: nat) -> Seq<char>
    decreases n,
{
    if n < 10 {
        seq![dchar(n)]
    } else {
        spec_dec(n / 10) + seq![dchar(n % 10)]
    }
}

/// A rendered number: decimal digits followed by the terminator `term`.
pub open spec fn spec_num(n: nat, term: char) -> Seq<char> {
    spec_dec(n) + seq![term]
}

/// Greedy decimal parse: consumes digit characters into an accumulator until
/// the terminator, rejecting an empty digit run, a `u64` overflow, a foreign
/// character, and an unterminated input.
pub open spec fn spec_parse_num(s: Seq<char>, term: char, acc: u64, seen: bool) -> Option<
    (u64, Seq<char>),
>
    decreases s.len(),
{
    if s.len() == 0 {
        None
    } else if s[0] == term {
        if seen {
            Some((acc, s.drop_first()))
        } else {
            None
        }
    } else if is_digit_char(s[0]) && acc * 10 + digit_val(s[0]) <= u64::MAX {
        spec_parse_num(s.drop_first(), term, (acc * 10 + digit_val(s[0])) as u64, true)
    } else {
        None
    }
}

/// The number of decimal digits of `n`.
pub open spec fn nd(n: nat) -> nat
    decreases n,
{
    if n < 10 {
        1
    } else {
        1 + nd(n / 10)
    }
}

/// Ten to the power `k`.
pub open spec fn pow10(k: nat) -> nat
    decreases k,
{
    if k == 0 {
        1
    } else {
        10 * pow10((k - 1) as nat)
    }
}

proof fn lemma_dchar_val(d: nat)
    requires
        d < 10,
    ensures
        is_digit_char(dchar(d)),
        digit_val(dchar(d)) == d,
{
}

/// Reading the digits of `m` extends the accumulator by `m` in base ten;
/// afterwards the parse continues on `tail` with at least one digit seen.
proof fn lemma_parse_dec(m: u64, tail: Seq<char>, term: char, acc: u64, seen: bool)
    requires
        !is_digit_char(term),
        acc * pow10(nd(m as nat)) + m <= u64::MAX,
    ensures
        spec_parse_num(spec_dec(m as nat) + tail, term, acc, seen) == spec_parse_num(
            tail,
            term,
            (acc * pow10(nd(m as nat)) + m) as u64,
            true,
        ),
    decreases m,
{
    let s = spec_dec(m as nat) + tail;
    if m < 10 {
        lemma_dchar_val(m as nat);
        assert(s[0] == dchar(m as nat));
        assert(s[0] != term);
        assert(nd(m as nat) == 1);
        assert(pow10(0nat) == 1);
        assert(pow10(1nat) == 10);
        assert(s.drop_first() =~= tail);
    } else {
        let hi = m / 10;
        let lo = m % 10;
        let p = pow10(nd(hi as nat));
        lemma_dchar_val(lo as nat);
        assert(nd(m as nat) == 1 + nd(hi as nat));
        assert(pow10(nd(m as nat)) == 10 * p);
        assert(acc * (10 * p) == (acc * 10) * p) by (nonlinear_arith);
        assert(m == 10 * hi + lo);
        // the accumulator stays within range at the intermediate step
        assert(acc * p * 10 + hi * 10 <= acc * (10 * p) + m) by (nonlinear_arith)
            requires
                hi == m / 10,
                m >= 10,
        ;
        assert(acc * p + hi <= u64::MAX);
        let mid = spec_dec(hi as nat) + (seq![dchar(lo as nat)] + tail);
        assert(s =~= mid);
        lemma_parse_dec(hi, seq![dchar(lo as nat)] + tail, term, acc, seen);
        let acc1 = (acc * p + hi) as u64;
        let t2 = seq![dchar(lo as nat)] + tail;
        assert(t2[0] == dchar(lo as nat));
        assert(t2[0] != term);
        assert(acc1 * 10 + lo == acc * (10 * p) + m) by (nonlinear_arith)
            requires
                acc1 == acc * p + hi,
                m == 10 * hi + lo,
                acc * (10 * p) == (acc * 10) * p,
        ;
        assert(t2.drop_first() =~= tail);
        assert(spec_parse_num(t2, term, acc1, true) == spec_parse_num(
            tail,
            term,
            (acc1 * 10 + lo) as u64,
            true,
        ));
    }
}

/// Law: parsing inverts rendering for `u64` values, leaving the rest of the
/// input untouched.
pub proof fn lemma_roundtrip_num(n: u64, term: char, rest: Seq<char>)
    requires
        !is_digit_char(term),
    ensures
        spec_parse_num(spec_num(n as nat, term) + rest, term, 0, false) == Some((n, rest)),
{
    let t = seq![term] + rest;
    assert(spec_num(n as nat, term) + rest =~= spec_dec(n as nat) + t);
    assert(0 * pow10(nd(n as nat)) + n <= u64::MAX);
    lemma_parse_dec(n, t, term, 0, false);
    assert(t[0] == term);
    assert(t.drop_first() =~= rest);
    assert((0 * pow10(nd(n as nat)) + n) as u64 == n);
}

/// The digit character for `d`.
pub fn dchar_exec(d: u64) -> (c: char)
    requires
        d < 10,
    ensures
        c == dchar(d as nat),
{
    if d == 0 {
        '0'
    } else if d == 1 {
        '1'
    } else if d == 2 {
        '2'
    } else if d == 3 {
        '3'
    } else if d == 4 {
        '4'
    } else if d == 5 {
        '5'
    } else if d == 6 {
        '6'
    } else if d == 7 {
        '7'
    } else if d == 8 {
        '8'
    } else {
        '9'
    }
}

/// The value of the digit character `c`, or `None` for a non-digit.
pub fn digit_of_char(c: char) -> (r: Option<u64>)
    ensures
        match r {
            Some(d) => is_digit_char(c) && d == digit_val(c) && d < 10,
            None => !is_digit_char(c),
        },
{
    match c {
        '0' => Some(0),
        '1' => Some(1),
        '2' => Some(2),
        '3' => Some(3),
        '4' => Some(4),
        '5' => Some(5),
        '6' => Some(6),
        '7' => Some(7),
        '8' => Some(8),
        '9' => Some(9),
        _ => None,
    }
}

/// Appends the decimal digits of `n` to `out`.
pub fn push_dec(out: &mut String, n: u64)
    ensures
        final(out)@ == old(out)@ + spec_dec(n as nat),
    decreases n,
{
    if n < 10 {
        out.push(dchar_exec(n));
        assert(out@ =~= old(out)@ + spec_dec(n as nat));
    } else {
        push_dec(out, n / 10);
        out.push(dchar_exec(n % 10));
        assert(out@ =~= old(out)@ + spec_dec(n as nat));
    }
}

/// Appends `n` rendered with the terminator `term` to `out`.
pub fn push_num(out: &mut String, n: u64, term: char)
    ensures
        final(out)@ == old(out)@ + spec_num(n as nat, term),
{
    push_dec(out, n);
    out.push(term);
    assert(out@ =~= old(out)@ + spec_num(n as nat, term));
}

/// The characters of `s`, in order.
pub fn str_to_chars(s: &str) -> (r: Vec<char>)
    ensures
        r@ == s@,
{
    let n: usize = s.unicode_len();
    let mut r: Vec<char> = Vec::new();
    let mut i: usize = 0;
    while i < n
        invariant
            n == s@.len(),
            i <= n,
            r@ =~= s@.subrange(0, i as int),
        decreases n - i,
    {
        r.push(s.get_char(i));
        i = i + 1;
    }
    proof {
        assert(r@ =~= s@);
    }
    r
}

/// Parses a decimal number terminated by `term` from `v` starting at `start`,
/// returning the value and the position just past the terminator; agrees with
/// [`spec_parse_num`] on the remaining input.
pub fn parse_num(v: &Vec<char>, start: usize, term: char) -> (r: Option<(u64, usize)>)
    requires
        start <= v@.len(),
    ensures
        match r {
            Some((n, j)) => start <= j <= v@.len() && spec_parse_num(
                v@.skip(start as int),
                term,
                0,
                false,
            ) == Some((n, v@.skip(j as int))),
            None => spec_parse_num(v@.skip(start as int), term, 0, false) is None,
        },
{
    let mut i: usize = start;
    let mut acc: u64 = 0;
    let mut seen: bool = false;
    loop
        invariant
            start <= i <= v@.len(),
            spec_parse_num(v@.skip(start as int), term, 0, false) == spec_parse_num(
                v@.skip(i as int),
                term,
                acc,
                seen,
            ),
        decreases v@.len() - i,
    {
        if i == v.len() {
            return None;
        }
        let c: char = v[i];
        proof {
            assert(v@.skip(i as int)[0] == c);
            assert(v@.skip(i as int).drop_first() =~= v@.skip(i as int + 1));
        }
        if c == term {
            if seen {
                return Some((acc, i + 1));
            } else {
                return None;
            }
        }
        match digit_of_char(c) {
            None => {
                return None;
            },
            Some(d) => {
                let scaled: u64 = match acc.checked_mul(10) {
                    Some(x) => x,
                    None => {
                        return None;
                    },
                };
                let next: u64 = match scaled.checked_add(d) {
                    Some(x) => x,
                    None => {
                        return None;
                    },
                };
                acc = next;
                seen = true;
                i = i + 1;
            },
        }
    }
}

/// A rendered signed number: a leading `-` for negative values, then the
/// magnitude's digits and the terminator.
pub open spec fn spec_i64(value: i64, term: char) -> Seq<char> {
    if value >= 0 {
        spec_num(value as nat, term)
    } else {
        seq!['-'] + spec_num((-(value as int)) as nat, term)
    }
}

/// Parses an optionally negated decimal number terminated by `term`,
/// rejecting magnitudes outside the `i64` range and a negated zero.
pub open spec fn spec_parse_i64(s: Seq<char>, term: char) -> Option<(i64, Seq<char>)> {
    if s.len() > 0 && s[0] == '-' {
        match spec_parse_num(s.drop_first(), term, 0, false) {
            Some((m, rest)) => if 1 <= m <= 9223372036854775808u64 {
                Some(((-(m as int)) as i64, rest))
            } else {
                None
            },
            None => None,
        }
    } else {
        match spec_parse_num(s, term, 0, false) {
            Some((m, rest)) => if m <= i64::MAX as u64 {
                Some((m as i64, rest))
            } else {
                None
            },
            None => None,
        }
    }
}

/// Law: parsing inverts rendering for `i64` values.
pub proof fn lemma_roundtrip_i64(value: i64, term: char, rest: Seq<char>)
    requires
        !is_digit_char(term),
        term != '-',
    ensures
        spec_parse_i64(spec_i64(value, term) + rest, term) == Some((value, rest)),
{
    if value >= 0 {
        lemma_roundtrip_num(value as u64, term, rest);
        lemma_dec_digits(value as nat);
        let s = spec_i64(value, term) + rest;
        assert(s[0] == spec_dec(value as nat)[0]);
        assert(s[0] != '-');
    } else {
        let m = (-(value as int)) as u64;
        lemma_roundtrip_num(m, term, rest);
        let s = spec_i64(value, term) + rest;
        assert(s[0] == '-');
        assert(s.drop_first() =~= spec_num(m as nat, term) + rest);
        assert(1 <= m <= 9223372036854775808u64);
        assert((-(m as int)) as i64 == value);
    }
}

/// Every character of a decimal rendering is a digit.
proof fn lemma_dec_digits(n: nat)
    ensures
        spec_dec(n).len() > 0,
        forall|i: int| 0 <= i < spec_dec(n).len() ==> is_digit_char(#[trigger] spec_dec(n)[i]),
    decreases n,
{
    if n < 10 {
        lemma_dchar_val(n);
    } else {
        lemma_dec_digits(n / 10);
        lemma_dchar_val(n % 10);
    }
}

/// The magnitude of `value` as an unsigned number.
pub fn magnitude(value: i64) -> (r: u64)
    ensures
        value >= 0 ==> r == value as u64,
        value < 0 ==> r == -(value as int),
{
    if value >= 0 {
        value as u64
    } else if value == i64::MIN {
        9223372036854775808u64
    } else {
        (-value) as u64
    }
}

/// Appends `value` rendered with the terminator `term` to `out`.
pub fn push_i64(out: &mut String, value: i64, term: char)
    ensures
        final(out)@ == old(out)@ + spec_i64(value, term),
{
    if value < 0 {
        out.push('-');
    }
    let m = magnitude(value);
    push_num(out, m, term);
    assert(out@ =~= old(out)@ + spec_i64(value, term));
}

} // verus!
