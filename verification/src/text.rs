//! Verified text building: concatenation of string pieces and the number
//! formats that scenario texts use (decimal, fixed one-decimal, hex).

use vstd::prelude::*;
use vstd::string::*;

verus! {

/// The characters of the pieces, one after the other.
pub open spec fn concat_spec(parts: Seq<Seq<char>>) -> Seq<char>
    decreases parts.len(),
{
    if parts.len() == 0 {
        Seq::empty()
    } else {
        concat_spec(parts.drop_last()) + parts.last()
    }
}

/// The views of a slice of string slices.
pub open spec fn views_of(parts: Seq<&str>) -> Seq<Seq<char>> {
    Seq::new(parts.len(), |i: int| parts[i]@)
}

/// Appends one character to a string (wraps `String::push`).
#[verifier::external_body]
pub(crate) fn push_char(s: &mut String, c: char)
    ensures
        final(s)@ == old(s)@.push(c),
{
    s.push(c);
}

/// Joins the pieces without separator.
pub fn concat(parts: &[&str]) -> (s: String)
    ensures
        s@ == concat_spec(views_of(parts@)),
{
    let mut s = String::new();
    let mut i: usize = 0;
    while i < parts.len()
        invariant
            i <= parts@.len(),
            s@ == concat_spec(views_of(parts@.take(i as int))),
        decreases parts@.len() - i,
    {
        let ghost before = parts@.take(i as int);
        s.append(parts[i]);
        proof {
            let after = parts@.take(i + 1);
            assert(after.drop_last() =~= before);
            assert(views_of(after).drop_last() =~= views_of(before));
        }
        i += 1;
    }
    proof {
        assert(parts@.take(parts@.len() as int) =~= parts@);
    }
    s
}

/// `a` followed by `b`.
pub fn cat2(a: &str, b: &str) -> (s: String)
    ensures
        s@ == a@ + b@,
{
    let mut s = a.to_owned();
    s.append(b);
    s
}

/// `a`, `b`, `c` in order.
pub fn cat3(a: &str, b: &str, c: &str) -> (s: String)
    ensures
        s@ == a@ + b@ + c@,
{
    let mut s = a.to_owned();
    s.append(b);
    s.append(c);
    s
}

/// `a`, `b`, `c`, `d` in order.
pub fn cat4(a: &str, b: &str, c: &str, d: &str) -> (s: String)
    ensures
        s@ == a@ + b@ + c@ + d@,
{
    let mut s = a.to_owned();
    s.append(b);
    s.append(c);
    s.append(d);
    s
}

/// `a`, `b`, `c`, `d`, `e` in order.
pub fn cat5(a: &str, b: &str, c: &str, d: &str, e: &str) -> (s: String)
    ensures
        s@ == a@ + b@ + c@ + d@ + e@,
{
    let mut s = a.to_owned();
    s.append(b);
    s.append(c);
    s.append(d);
    s.append(e);
    s
}

/// The decimal digit character for `d < 10`.
pub open spec fn digit_char(d: nat) -> char {
    if d == 0 { '0' }
    else if d == 1 { '1' }
    else if d == 2 { '2' }
    else if d == 3 { '3' }
    else if d == 4 { '4' }
    else if d == 5 { '5' }
    else if d == 6 { '6' }
    else if d == 7 { '7' }
    else if d == 8 { '8' }
    else { '9' }
}

/// The upper-case hexadecimal digit character for `d < 16`.
pub open spec fn hex_char(d: nat) -> char {
    if d < 10 { digit_char(d) }
    else if d == 10 { 'A' }
    else if d == 11 { 'B' }
    else if d == 12 { 'C' }
    else if d == 13 { 'D' }
    else if d == 14 { 'E' }
    else { 'F' }
}

/// Decimal notation of `n`, without leading zeros.
pub open spec fn decimal(n: nat) -> Seq<char>
    decreases n,
{
    if n < 10 {
        seq![digit_char(n)]
    } else {
        decimal(n / 10).push(digit_char(n % 10))
    }
}

/// The last `k` hexadecimal digits of `n`, upper case, zero-padded.
pub open spec fn hex_digits(n: nat, k: nat) -> Seq<char>
    decreases k,
{
    if k == 0 {
        Seq::empty()
    } else {
        hex_digits(n / 16, (k - 1) as nat).push(hex_char(n % 16))
    }
}

/// `t` tenths written with exactly one decimal: `t / 10` "." `t % 10`.
pub open spec fn tenths(t: nat) -> Seq<char> {
    decimal(t / 10).push('.').push(digit_char(t % 10))
}

fn digit(d: u32) -> (c: char)
    requires
        d < 16,
    ensures
        c == hex_char(d as nat),
{
    match d {
        0 => '0',
        1 => '1',
        2 => '2',
        3 => '3',
        4 => '4',
        5 => '5',
        6 => '6',
        7 => '7',
        8 => '8',
        9 => '9',
        10 => 'A',
        11 => 'B',
        12 => 'C',
        13 => 'D',
        14 => 'E',
        _ => 'F',
    }
}

/// Appends the decimal notation of `n`.
pub fn push_decimal(s: &mut String, n: u64)
    ensures
        final(s)@ == old(s)@ + decimal(n as nat),
    decreases n,
{
    if n < 10 {
        push_char(s, digit(n as u32));
        assert(decimal(n as nat) =~= seq![digit_char(n as nat)]);
    } else {
        push_decimal(s, n / 10);
        push_char(s, digit((n % 10) as u32));
        proof {
            assert(decimal(n as nat) == decimal((n / 10) as nat).push(digit_char((n % 10) as nat)));
        }
    }
}

/// Decimal notation of `n` (the `{}` format of an unsigned integer).
pub fn num(n: u64) -> (s: String)
    ensures
        s@ == decimal(n as nat),
{
    let mut s = String::new();
    push_decimal(&mut s, n);
    s
}

fn push_hex(s: &mut String, n: u32, k: u32)
    ensures
        final(s)@ == old(s)@ + hex_digits(n as nat, k as nat),
    decreases k,
{
    if k > 0 {
        push_hex(s, n / 16, k - 1);
        push_char(s, digit(n % 16));
    } else {
        assert(hex_digits(n as nat, k as nat) =~= Seq::<char>::empty());
    }
}

/// Eight upper-case hexadecimal digits of `n` (the `{:08X}` format).
pub fn hex8(n: u32) -> (s: String)
    ensures
        s@ == hex_digits(n as nat, 8),
{
    let mut s = String::new();
    push_hex(&mut s, n, 8);
    s
}

/// `n / d` rounded to the nearest whole number, halves away from zero.
pub open spec fn div_round_half_up(n: int, d: int) -> int {
    (2 * n + d) / (2 * d)
}

/// `n / d` rounded to the nearest whole number, halves to even.
pub open spec fn div_round_even(n: int, d: int) -> int {
    let q = n / d;
    let r = n % d;
    if 2 * r > d || (2 * r == d && q % 2 == 1) {
        q + 1
    } else {
        q
    }
}

/// `n / d` rounded to the nearest whole number, halves away from zero.
pub fn round_div(n: u64, d: u64) -> (r: u64)
    requires
        0 < d <= 0x1_0000_0000,
        n <= 0x1_0000_0000_0000,
    ensures
        r == div_round_half_up(n as int, d as int),
{
    (2 * n + d) / (2 * d)
}

/// `pct` percent of `amount`, to the nearest whole number, halves up.
pub fn pct_of_pot(amount: u32, pct: u64) -> (r: u64)
    requires
        amount <= 100,
        pct <= 200,
    ensures
        r == div_round_half_up(amount * pct, 100),
{
    assert(amount * pct <= 20000) by (nonlinear_arith)
        requires amount <= 100, pct <= 200;
    round_div(amount as u64 * pct, 100)
}

/// `n / d` rounded to the nearest whole number, halves to even.
pub fn round_div_even(n: u64, d: u64) -> (r: u64)
    requires
        0 < d,
    ensures
        r == div_round_even(n as int, d as int),
{
    let q = n / d;
    let r = n % d;
    assert(r < d);
    if r > d - r || (r == d - r && q % 2 == 1) {
        assert(q < u64::MAX) by (nonlinear_arith)
            requires
                q == n / d,
                d > 0,
                2 * r >= d,
                r == n % d,
                n <= u64::MAX,
        {
            assert(n == d * q + r);
            assert(d >= 2);
        }
        q + 1
    } else {
        q
    }
}

/// `t` tenths with one decimal (the `{:.1}` format of `t / 10`).
pub fn tenths_text(t: u64) -> (s: String)
    ensures
        s@ == tenths(t as nat),
{
    let mut s = String::new();
    push_decimal(&mut s, t / 10);
    push_char(&mut s, '.');
    push_char(&mut s, digit((t % 10) as u32));
    s
}

} // verus!
