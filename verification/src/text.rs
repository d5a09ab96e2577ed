//! Verified text utilities: character-level string equality, decimal
//! rendering of integers and fixed-point values, and JSON string escaping.

use vstd::prelude::*;
use vstd::string::StrSliceExecFns;

use crate::Decimal6;

verus! {

/// Character-for-character string equality, with its meaning over views.
pub fn str_eq(a: &str, b: &str) -> (r: bool)
    ensures
        r == (a@ == b@),
{
    let alen = a.unicode_len();
    let blen = b.unicode_len();
    if alen != blen {
        return false;
    }
    let mut i: usize = 0;
    while i < alen
        invariant
            i <= alen,
            alen == a@.len(),
            blen == b@.len(),
            alen == blen,
            forall|j: int| 0 <= j < i ==> a@[j] == b@[j],
        decreases alen - i,
    {
        if a.get_char(i) != b.get_char(i) {
            return false;
        }
        i += 1;
    }
    proof {
        assert(a@ =~= b@);
    }
    true
}

/// Relies on `String`'s `FromIterator<char>` impl: collecting an iterator of
/// characters yields the string made of exactly those characters in order.
#[verifier::external_body]
pub(crate) fn chars_to_string(v: &Vec<char>) -> (r: String)
    ensures
        r@ == v@,
{
    v.iter().collect()
}

/// Appends every character of `add` to `out`.
pub fn push_all(out: &mut Vec<char>, add: &Vec<char>)
    ensures
        final(out)@ == old(out)@ + add@,
{
    let mut i: usize = 0;
    while i < add.len()
        invariant
            i <= add.len(),
            out@ =~= old(out)@ + add@.take(i as int),
        decreases add.len() - i,
    {
        out.push(add[i]);
        proof {
            assert(add@.take(i + 1) =~= add@.take(i as int).push(add@[i as int]));
        }
        i += 1;
    }
    proof {
        assert(add@.take(add@.len() as int) =~= add@);
    }
}

/// The decimal digit character for `d` in `0..10`.
pub open spec fn digit_char(d: int) -> char {
    if d == 0 {
        '0'
    } else if d == 1 {
        '1'
    } else if d == 2 {
        '2'
    } else if d == 3 {
        '3'
    } else if d == 4 {
        '4'
    } else if d == 5 {
        '5'
    } else if d == 6 {
        '6'
    } else if d == 7 {
        '7'
    } else if d == 8 {
        '8'
    } else {
        '9'
    }
}

/// Decimal digits of a positive number, most significant first; empty for 0.
pub open spec fn dec_digits(n: int) -> Seq<char>
    decreases n,
{
    if n <= 0 {
        seq![]
    } else {
        dec_digits(n / 10).push(digit_char(n % 10))
    }
}

/// Decimal rendering of a nonnegative number ("0" for 0).
pub open spec fn nat_str(n: int) -> Seq<char> {
    if n == 0 {
        seq!['0']
    } else {
        dec_digits(n)
    }
}

/// Decimal rendering of an integer, with a leading '-' when negative.
pub open spec fn int_str(n: int) -> Seq<char> {
    if n < 0 {
        seq!['-'] + nat_str(-n)
    } else {
        nat_str(n)
    }
}

/// The low `k` decimal digits of `n`, most significant first, zero-padded
/// to exactly `k` characters.
pub open spec fn padded_digits(n: int, k: nat) -> Seq<char>
    decreases k,
{
    if k == 0 {
        seq![]
    } else {
        padded_digits(n / 10, (k - 1) as nat).push(digit_char(n % 10))
    }
}

/// Rendering of a `Decimal6` count of millionths: optional sign, integer
/// part, '.', then the six fractional digits, zero-padded.
pub open spec fn dec6_str(m: int) -> Seq<char> {
    let a = if m < 0 {
        -m
    } else {
        m
    };
    let sign: Seq<char> = if m < 0 {
        seq!['-']
    } else {
        seq![]
    };
    sign + nat_str(a / 1000000) + seq!['.'] + padded_digits(a % 1000000, 6)
}

fn digit_to_char(d: u64) -> (c: char)
    requires
        d < 10,
    ensures
        c == digit_char(d as int),
{
    match d {
        0 => '0',
        1 => '1',
        2 => '2',
        3 => '3',
        4 => '4',
        5 => '5',
        6 => '6',
        7 => '7',
        8 => '8',
        _ => '9',
    }
}

/// Decimal rendering of a `u64`.
pub fn u64_to_dec(n: u64) -> (r: Vec<char>)
    ensures
        r@ == nat_str(n as int),
{
    if n == 0 {
        let mut v: Vec<char> = Vec::new();
        v.push('0');
        proof {
            assert(v@ =~= nat_str(0));
        }
        return v;
    }
    let mut out: Vec<char> = Vec::new();
    let mut rest: u64 = n;
    while rest > 0
        invariant
            dec_digits(n as int) =~= dec_digits(rest as int) + out@,
        decreases rest,
    {
        let ghost prev_out = out@;
        let ghost prev_rest: int = rest as int;
        let d = digit_to_char(rest % 10);
        out.insert(0, d);
        proof {
            assert(out@ =~= seq![d] + prev_out);
            assert(dec_digits(prev_rest) =~= dec_digits(prev_rest / 10) + seq![d]);
        }
        rest = rest / 10;
        proof {
            assert(dec_digits(n as int) =~= dec_digits(rest as int) + out@);
        }
    }
    proof {
        assert(dec_digits(0) + out@ =~= out@);
    }
    out
}

/// Decimal rendering of an `i64`, sign included.
pub fn i64_to_dec(n: i64) -> (r: Vec<char>)
    ensures
        r@ == int_str(n as int),
{
    if n >= 0 {
        u64_to_dec(n as u64)
    } else {
        let wide: i128 = n as i128;
        let mag: u64 = (-wide) as u64;
        proof {
            assert(0 < -wide <= u64::MAX as i128);
            assert(mag as int == -(n as int));
        }
        let mut v = u64_to_dec(mag);
        v.insert(0, '-');
        proof {
            assert(v@ =~= seq!['-'] + nat_str(mag as int));
        }
        v
    }
}

/// Each digit loop step peels the next-higher digit off the front.
proof fn lemma_padded_unfold_front(n: int, k: nat)
    requires
        k >= 1,
    ensures
        padded_digits(n, k) =~= seq![digit_char(div_pow10(n, (k - 1) as nat) % 10)]
            + padded_digits(n, (k - 1) as nat),
    decreases k,
{
    if k == 1 {
        assert(padded_digits(n, 1) == padded_digits(n / 10, 0).push(digit_char(n % 10)));
        assert(padded_digits(n / 10, 0) == Seq::<char>::empty());
        assert(div_pow10(n, 0) == n);
        assert(padded_digits(n, 1) =~= seq![digit_char(n % 10)]);
    } else {
        lemma_padded_unfold_front(n / 10, (k - 1) as nat);
        lemma_div_pow10_shift(n, (k - 1) as nat);
        assert(padded_digits(n, k) == padded_digits(n / 10, (k - 1) as nat).push(
            digit_char(n % 10),
        ));
        assert(padded_digits(n / 10, (k - 1) as nat) =~= seq![
            digit_char(div_pow10(n / 10, (k - 2) as nat) % 10),
        ] + padded_digits(n / 10, (k - 2) as nat));
        assert(div_pow10(n / 10, (k - 2) as nat) == div_pow10(n, (k - 1) as nat));
        assert(padded_digits(n, (k - 1) as nat) == padded_digits(n / 10, (k - 2) as nat).push(
            digit_char(n % 10),
        ));
        assert(padded_digits(n, k) =~= seq![digit_char(div_pow10(n, (k - 1) as nat) % 10)]
            + padded_digits(n, (k - 1) as nat));
    }
}

/// `n` divided by ten, `k` times over.
pub open spec fn div_pow10(n: int, k: nat) -> int
    decreases k,
{
    if k == 0 {
        n
    } else {
        div_pow10(n, (k - 1) as nat) / 10
    }
}

proof fn lemma_div_pow10_shift(n: int, k: nat)
    requires
        k >= 1,
    ensures
        div_pow10(n / 10, (k - 1) as nat) == div_pow10(n, k),
    decreases k,
{
    if k == 1 {
        assert(div_pow10(n, 1) == div_pow10(n, 0) / 10);
        assert(div_pow10(n / 10, 0) == n / 10);
        assert(div_pow10(n, 0) == n);
    } else {
        lemma_div_pow10_shift(n, (k - 1) as nat);
        assert(div_pow10(n, k) == div_pow10(n, (k - 1) as nat) / 10);
        assert(div_pow10(n / 10, (k - 1) as nat) == div_pow10(n / 10, (k - 2) as nat) / 10);
    }
}

/// The six fractional digits of a value below one million, zero-padded.
fn frac6_to_dec(frac: u64) -> (r: Vec<char>)
    requires
        frac < 1000000,
    ensures
        r@ == padded_digits(frac as int, 6),
{
    let mut out: Vec<char> = Vec::new();
    let mut fr: u64 = frac;
    let mut k: usize = 0;
    while k < 6
        invariant
            k <= 6,
            out@ =~= padded_digits(frac as int, k as nat),
            fr as int == div_pow10(frac as int, k as nat),
            fr < 1000000,
        decreases 6 - k,
    {
        let ghost prev_out = out@;
        let d = digit_to_char(fr % 10);
        out.insert(0, d);
        proof {
            assert(out@ =~= seq![d] + prev_out);
        }
        fr = fr / 10;
        k += 1;
        proof {
            lemma_padded_unfold_front(frac as int, k as nat);
        }
    }
    out
}

/// Rendering of a `Decimal6` value.
pub fn dec6_to_dec(x: Decimal6) -> (r: Vec<char>)
    ensures
        r@ == dec6_str(x.millionths as int),
{
    let m = x.millionths;
    let wide: i128 = m as i128;
    let mag: u64 = if m < 0 {
        proof {
            assert(0 < -wide <= u64::MAX as i128);
        }
        (-wide) as u64
    } else {
        m as u64
    };
    proof {
        assert(mag as int == if m < 0 { -(m as int) } else { m as int });
    }
    let whole: u64 = mag / 1000000;
    let frac: u64 = mag % 1000000;
    let mut out: Vec<char> = Vec::new();
    if m < 0 {
        out.push('-');
    }
    let whole_chars = u64_to_dec(whole);
    push_all(&mut out, &whole_chars);
    out.push('.');
    let frac_chars = frac6_to_dec(frac);
    push_all(&mut out, &frac_chars);
    proof {
        assert(out@ =~= dec6_str(m as int));
    }
    out
}

/// The escape of one character inside a JSON string: quotes and backslashes
/// get a backslash, the named control characters get their short escapes,
/// other control characters get a `\u00..` escape, and everything else
/// stands for itself.
pub open spec fn esc_char(c: char) -> Seq<char> {
    if c == '"' {
        seq!['\\', '"']
    } else if c == '\\' {
        seq!['\\', '\\']
    } else if c == '\u{8}' {
        seq!['\\', 'b']
    } else if c == '\t' {
        seq!['\\', 't']
    } else if c == '\n' {
        seq!['\\', 'n']
    } else if c == '\u{c}' {
        seq!['\\', 'f']
    } else if c == '\r' {
        seq!['\\', 'r']
    } else if (c as int) < 32 {
        seq!['\\', 'u', '0', '0', hex_char((c as int) / 16), hex_char((c as int) % 16)]
    } else {
        seq![c]
    }
}

/// The lowercase hexadecimal digit character for `d` in `0..16`.
pub open spec fn hex_char(d: int) -> char {
    if d < 10 {
        digit_char(d)
    } else if d == 10 {
        'a'
    } else if d == 11 {
        'b'
    } else if d == 12 {
        'c'
    } else if d == 13 {
        'd'
    } else if d == 14 {
        'e'
    } else {
        'f'
    }
}

/// The JSON escaping of a whole string.
pub open spec fn json_escape(s: Seq<char>) -> Seq<char>
    decreases s.len(),
{
    if s.len() == 0 {
        seq![]
    } else {
        json_escape(s.drop_last()) + esc_char(s.last())
    }
}

fn hex_to_char(d: u32) -> (c: char)
    requires
        d < 16,
    ensures
        c == hex_char(d as int),
{
    match d {
        0 => '0',
        1 => '1',
        2 => '2',
        3 => '3',
        4 => '4',
        5 => '5',
        6 => '6',
        7 => '7',
        8 => '8',
        9 => '9',
        10 => 'a',
        11 => 'b',
        12 => 'c',
        13 => 'd',
        14 => 'e',
        _ => 'f',
    }
}

fn push_escaped(out: &mut Vec<char>, c: char)
    ensures
        final(out)@ == old(out)@ + esc_char(c),
{
    if c == '"' {
        out.push('\\');
        out.push('"');
    } else if c == '\\' {
        out.push('\\');
        out.push('\\');
    } else if c == '\u{8}' {
        out.push('\\');
        out.push('b');
    } else if c == '\t' {
        out.push('\\');
        out.push('t');
    } else if c == '\n' {
        out.push('\\');
        out.push('n');
    } else if c == '\u{c}' {
        out.push('\\');
        out.push('f');
    } else if c == '\r' {
        out.push('\\');
        out.push('r');
    } else if (c as u32) < 32 {
        let v = c as u32;
        out.push('\\');
        out.push('u');
        out.push('0');
        out.push('0');
        out.push(hex_to_char(v / 16));
        out.push(hex_to_char(v % 16));
    } else {
        out.push(c);
    }
    proof {
        assert(out@ =~= old(out)@ + esc_char(c));
    }
}

/// JSON-escapes a string.
pub fn escape_json(s: &str) -> (r: Vec<char>)
    ensures
        r@ == json_escape(s@),
{
    let len = s.unicode_len();
    let mut out: Vec<char> = Vec::new();
    let mut i: usize = 0;
    proof {
        assert(out@ =~= json_escape(s@.take(0)));
    }
    while i < len
        invariant
            i <= len,
            len == s@.len(),
            out@ == json_escape(s@.take(i as int)),
        decreases len - i,
    {
        let c = s.get_char(i);
        push_escaped(&mut out, c);
        proof {
            assert(s@.take(i + 1).drop_last() =~= s@.take(i as int));
            assert(s@.take(i + 1).last() == s@[i as int]);
        }
        i += 1;
    }
    proof {
        assert(s@.take(s@.len() as int) =~= s@);
    }
    out
}

} // verus!
