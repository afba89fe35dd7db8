//! Parsers of the command-line tools' arguments: unsigned integers with the
//! grammar of `u32::from_str`, `WxH` sizes, and fractal-type names.

use vstd::prelude::*;
use vstd::string::*;
use crate::text::{chars_of, seq_eq};
use crate::types::FractalType;

verus! {

pub open spec fn is_digit(c: char) -> bool {
    '0' <= c <= '9'
}

/// Decimal value of a digit string.
pub open spec fn digits_value(d: Seq<char>) -> int
    decreases d.len(),
{
    if d.len() == 0 {
        0
    } else {
        digits_value(d.drop_last()) * 10 + (d.last() as int - '0' as int)
    }
}

/// The text after an optional leading `+`.
pub open spec fn unsigned_digits(s: Seq<char>) -> Seq<char> {
    if s.len() > 0 && s[0] == '+' { s.drop_first() } else { s }
}

pub open spec fn all_digits(d: Seq<char>) -> bool {
    forall|i: int| 0 <= i < d.len() ==> is_digit(#[trigger] d[i])
}

/// The unsigned-integer grammar of `from_str` for an unsigned type whose
/// largest value is `max`: an optional `+`, then one or more ASCII digits
/// whose value is at most `max`.
pub open spec fn spec_parse_unsigned(s: Seq<char>, max: int) -> Option<int> {
    let d = unsigned_digits(s);
    if d.len() > 0 && all_digits(d) && digits_value(d) <= max {
        Some(digits_value(d))
    } else {
        None
    }
}

/// `u32::from_str`.
pub open spec fn spec_parse_u32(s: Seq<char>) -> Option<u32> {
    match spec_parse_unsigned(s, u32::MAX as int) {
        Some(v) => Some(v as u32),
        None => None,
    }
}

proof fn lemma_digits_monotone(d: Seq<char>, i: int)
    requires
        0 <= i <= d.len(),
        forall|k: int| 0 <= k < d.len() ==> is_digit(#[trigger] d[k]),
    ensures
        digits_value(d.subrange(0, i)) <= digits_value(d),
        digits_value(d) >= 0,
    decreases d.len() - i,
{
    if d.len() == 0 {
    } else if i == d.len() {
        assert(d.subrange(0, i) =~= d);
        lemma_digits_nonneg(d);
    } else {
        let e = d.drop_last();
        assert forall|k: int| 0 <= k < e.len() implies is_digit(#[trigger] e[k]) by {
            assert(e[k] == d[k]);
        }
        lemma_digits_monotone(e, i);
        assert(e.subrange(0, i) =~= d.subrange(0, i));
        lemma_digits_nonneg(e);
    }
}

proof fn lemma_digits_nonneg(d: Seq<char>)
    requires
        forall|k: int| 0 <= k < d.len() ==> is_digit(#[trigger] d[k]),
    ensures
        digits_value(d) >= 0,
    decreases d.len(),
{
    if d.len() > 0 {
        let e = d.drop_last();
        assert forall|k: int| 0 <= k < e.len() implies is_digit(#[trigger] e[k]) by {
            assert(e[k] == d[k]);
        }
        lemma_digits_nonneg(e);
        assert(is_digit(d[d.len() - 1]));
    }
}

/// Parses an unsigned integer no larger than `max`, as `from_str` of the
/// unsigned type with that maximum does.
pub fn parse_unsigned(v: &Vec<char>, max: u64) -> (r: Option<u64>)
    ensures
        r matches Some(x) ==> spec_parse_unsigned(v@, max as int) == Some(x as int),
        r is None ==> spec_parse_unsigned(v@, max as int) is None,
{
    let n = v.len();
    let start: usize = if n > 0 && v[0] == '+' { 1 } else { 0 };
    let ghost d = unsigned_digits(v@);
    assert(d =~= v@.subrange(start as int, n as int));
    if start >= n {
        return None;
    }
    let mut acc: u128 = 0;
    let mut i: usize = start;
    while i < n
        invariant
            n == v@.len(),
            start <= i <= n,
            start < n,
            d =~= v@.subrange(start as int, n as int),
            d == unsigned_digits(v@),
            forall|k: int| start <= k < i ==> is_digit(#[trigger] v@[k]),
            acc == digits_value(v@.subrange(start as int, i as int)),
            acc <= max,
        decreases n - i,
    {
        let c = v[i];
        if !('0' <= c && c <= '9') {
            proof {
                let k: int = i - start;
                assert(d[k] == v@[i as int]);
                assert(!is_digit(d[k]));
            }
            return None;
        }
        let digit = (c as u128) - ('0' as u128);
        let ghost pre = v@.subrange(start as int, i as int);
        let ghost post = v@.subrange(start as int, i + 1);
        assert(post.drop_last() =~= pre);
        acc = acc * 10 + digit;
        assert(post.last() == c);
        assert(digits_value(post) == acc);
        if acc > max as u128 {
            proof {
                assert forall|k: int| 0 <= k < post.len() implies is_digit(#[trigger] post[k]) by {
                    assert(post[k] == v@[start + k]);
                }
                if forall|k: int| 0 <= k < d.len() ==> is_digit(#[trigger] d[k]) {
                    lemma_digits_monotone(d, i + 1 - start);
                    assert(d.subrange(0, i + 1 - start) =~= post);
                }
            }
            return None;
        }
        i = i + 1;
    }
    assert(v@.subrange(start as int, n as int) =~= d);
    assert forall|k: int| 0 <= k < d.len() implies is_digit(#[trigger] d[k]) by {
        assert(d[k] == v@[start + k]);
    }
    Some(acc as u64)
}

/// Parses an unsigned 32-bit integer as `u32::from_str` does.
pub fn parse_u32(s: &str) -> (r: Option<u32>)
    ensures
        r == spec_parse_u32(s@),
{
    let v = chars_of(s);
    match parse_unsigned(&v, 0xffff_ffff) {
        Some(x) => Some(x as u32),
        None => None,
    }
}

/// Index of the first `x` in `s`, or -1.
pub open spec fn first_x(s: Seq<char>, i: int) -> int
    decreases s.len() - i,
{
    if i < 0 || i >= s.len() {
        -1
    } else if s[i] == 'x' {
        i
    } else {
        first_x(s, i + 1)
    }
}

/// A `WxH` size: the text before the first `x` and the text after it both
/// parse as `u32`, and neither side is zero.
pub open spec fn spec_parse_size(s: Seq<char>) -> Option<(u32, u32)> {
    let p = first_x(s, 0);
    if p < 0 {
        None
    } else {
        match (spec_parse_u32(s.subrange(0, p)), spec_parse_u32(s.subrange(p + 1, s.len() as int))) {
            (Some(w), Some(h)) => if w == 0 || h == 0 { None } else { Some((w, h)) },
            _ => None,
        }
    }
}

proof fn lemma_first_x_range(s: Seq<char>, i: int)
    requires
        0 <= i <= s.len(),
    ensures
        first_x(s, i) == -1 || i <= first_x(s, i) < s.len(),
    decreases s.len() - i,
{
    if i < s.len() && s[i] != 'x' {
        lemma_first_x_range(s, i + 1);
    }
}

/// Parses a `WxH` output size; `None` on malformed input or a zero side.
pub fn parse_size(s: &str) -> (r: Option<(u32, u32)>)
    ensures
        r == spec_parse_size(s@),
{
    let v = chars_of(s);
    let n = v.len();
    let mut i: usize = 0;
    while i < n && v[i] != 'x'
        invariant
            n == v@.len(),
            v@ == s@,
            i <= n,
            first_x(s@, 0) == first_x(s@, i as int),
        decreases n - i,
    {
        i = i + 1;
    }
    proof {
        lemma_first_x_range(s@, 0);
    }
    if i == n {
        return None;
    }
    let w = parse_u32(s.substring_char(0, i));
    let h = parse_u32(s.substring_char(i + 1, n));
    match (w, h) {
        (Some(w), Some(h)) => {
            if w == 0 || h == 0 {
                None
            } else {
                Some((w, h))
            }
        },
        _ => None,
    }
}

pub open spec fn spec_parse_fractal_type(s: Seq<char>) -> Option<FractalType> {
    if s == "Mandelbrot2D"@ {
        Some(FractalType::Mandelbrot2D)
    } else if s == "BurningShip2D"@ {
        Some(FractalType::BurningShip2D)
    } else if s == "Tricorn2D"@ {
        Some(FractalType::Tricorn2D)
    } else {
        None
    }
}

/// The fractal types the preset generator supports, by name.
pub fn parse_fractal_type(s: &str) -> (t: Option<FractalType>)
    ensures
        t == spec_parse_fractal_type(s@),
{
    let v = chars_of(s);
    if seq_eq(&v, &chars_of("Mandelbrot2D")) {
        Some(FractalType::Mandelbrot2D)
    } else if seq_eq(&v, &chars_of("BurningShip2D")) {
        Some(FractalType::BurningShip2D)
    } else if seq_eq(&v, &chars_of("Tricorn2D")) {
        Some(FractalType::Tricorn2D)
    } else {
        None
    }
}

/// The digit character of a value below ten.
pub open spec fn digit_char(d: int) -> char {
    (48 + d) as char
}

/// The decimal form of `n`, as `to_string` writes it: no sign, no leading
/// zeros.
pub open spec fn decimal(n: nat) -> Seq<char>
    decreases n,
{
    if n < 10 {
        seq![digit_char(n as int)]
    } else {
        decimal(n / 10).push(digit_char((n % 10) as int))
    }
}

fn digit_str(d: u32) -> (r: &'static str)
    requires
        d < 10,
    ensures
        r@ == seq![digit_char(d as int)],
{
    proof {
        reveal_strlit("0");
        reveal_strlit("1");
        reveal_strlit("2");
        reveal_strlit("3");
        reveal_strlit("4");
        reveal_strlit("5");
        reveal_strlit("6");
        reveal_strlit("7");
        reveal_strlit("8");
        reveal_strlit("9");
    }
    match d {
        0 => "0",
        1 => "1",
        2 => "2",
        3 => "3",
        4 => "4",
        5 => "5",
        6 => "6",
        7 => "7",
        8 => "8",
        _ => "9",
    }
}

/// Appends the decimal form of `n` to `out`.
pub fn push_decimal(out: &mut String, n: u32)
    ensures
        final(out)@ == old(out)@ + decimal(n as nat),
    decreases n,
{
    if n >= 10 {
        push_decimal(out, n / 10);
    }
    let ghost before = out@;
    out.append(digit_str(n % 10));
    proof {
        if n < 10 {
            assert(n % 10 == n);
        }
    }
}

proof fn lemma_decimal_digits(n: nat)
    ensures
        decimal(n).len() > 0,
        all_digits(decimal(n)),
        digits_value(decimal(n)) == n,
        decimal(n)[0] != '+',
        forall|i: int| 0 <= i < decimal(n).len() ==> #[trigger] decimal(n)[i] != 'x',
    decreases n,
{
    let d = decimal(n);
    if n < 10 {
        assert(d.drop_last() =~= Seq::<char>::empty());
        assert(d.last() == digit_char(n as int));
        assert(digit_char(n as int) as int == 48 + n);
        assert(digits_value(d) == digits_value(d.drop_last()) * 10 + (d.last() as int - '0' as int));
    } else {
        lemma_decimal_digits(n / 10);
        let p = decimal(n / 10);
        assert(d.drop_last() =~= p);
        assert(d.last() == digit_char((n % 10) as int));
        assert(digit_char((n % 10) as int) as int == 48 + n % 10);
        assert(digits_value(d) == digits_value(p) * 10 + (n % 10));
        assert((n / 10) * 10 + n % 10 == n);
        assert forall|i: int| 0 <= i < d.len() implies is_digit(#[trigger] d[i]) by {
            if i < p.len() {
                assert(d[i] == p[i]);
                assert(is_digit(p[i]));
            }
        }
        assert forall|i: int| 0 <= i < d.len() implies #[trigger] d[i] != 'x' by {
            if i < p.len() {
                assert(d[i] == p[i]);
            }
        }
        assert(d[0] == p[0]);
    }
}

/// The decimal form of a number reads back as that number under any
/// bound it does not exceed, and is refused under a smaller bound.
pub proof fn lemma_parse_decimal_bounded(n: nat, max: int)
    ensures
        n <= max ==> spec_parse_unsigned(decimal(n), max) == Some(n as int),
        n > max ==> spec_parse_unsigned(decimal(n), max) is None,
{
    lemma_decimal_digits(n);
}

/// Reading back the decimal form of a number gives the number.
pub proof fn lemma_parse_decimal(n: u32)
    ensures
        spec_parse_u32(decimal(n as nat)) == Some(n),
{
    lemma_decimal_digits(n as nat);
}

proof fn lemma_first_x_past(s: Seq<char>, i: int, p: int)
    requires
        0 <= i <= p < s.len(),
        s[p] == 'x',
        forall|k: int| i <= k < p ==> s[k] != 'x',
    ensures
        first_x(s, i) == p,
    decreases p - i,
{
    if i < p {
        lemma_first_x_past(s, i + 1, p);
    }
}

/// A size written as `WxH` in decimal reads back as the same size, for
/// every size with no zero side.
pub proof fn lemma_size_roundtrip(w: u32, h: u32)
    requires
        w > 0,
        h > 0,
    ensures
        spec_parse_size(decimal(w as nat) + seq!['x'] + decimal(h as nat)) == Some((w, h)),
{
    let dw = decimal(w as nat);
    let dh = decimal(h as nat);
    let s = dw + seq!['x'] + dh;
    lemma_decimal_digits(w as nat);
    lemma_decimal_digits(h as nat);
    assert forall|k: int| 0 <= k < dw.len() implies s[k] != 'x' by {
        assert(s[k] == dw[k]);
    }
    lemma_first_x_past(s, 0, dw.len() as int);
    assert(s.subrange(0, dw.len() as int) =~= dw);
    assert(s.subrange(dw.len() + 1int, s.len() as int) =~= dh);
    lemma_parse_decimal(w);
    lemma_parse_decimal(h);
}

/// A size with a zero side is refused, however it is written in decimal.
pub proof fn lemma_size_zero_side_refused(w: u32, h: u32)
    requires
        w == 0 || h == 0,
    ensures
        spec_parse_size(decimal(w as nat) + seq!['x'] + decimal(h as nat)) is None,
{
    let dw = decimal(w as nat);
    let dh = decimal(h as nat);
    let s = dw + seq!['x'] + dh;
    lemma_decimal_digits(w as nat);
    lemma_decimal_digits(h as nat);
    assert forall|k: int| 0 <= k < dw.len() implies s[k] != 'x' by {
        assert(s[k] == dw[k]);
    }
    lemma_first_x_past(s, 0, dw.len() as int);
    assert(s.subrange(0, dw.len() as int) =~= dw);
    assert(s.subrange(dw.len() + 1int, s.len() as int) =~= dh);
    lemma_parse_decimal(w);
    lemma_parse_decimal(h);
}

/// The preset generator's fractal names: `Mandelbrot2D`, `BurningShip2D`
/// and `Tricorn2D` name those three types, and no other name is accepted.
pub proof fn lemma_fractal_type_names(s: Seq<char>)
    ensures
        spec_parse_fractal_type(seq!['M', 'a', 'n', 'd', 'e', 'l', 'b', 'r', 'o', 't', '2', 'D'])
            == Some(FractalType::Mandelbrot2D),
        spec_parse_fractal_type(seq!['B', 'u', 'r', 'n', 'i', 'n', 'g', 'S', 'h', 'i', 'p', '2', 'D'])
            == Some(FractalType::BurningShip2D),
        spec_parse_fractal_type(seq!['T', 'r', 'i', 'c', 'o', 'r', 'n', '2', 'D']) == Some(FractalType::Tricorn2D),
        spec_parse_fractal_type(s) matches Some(t) ==> (t == FractalType::Mandelbrot2D || t
            == FractalType::BurningShip2D || t == FractalType::Tricorn2D),
{
    reveal_strlit("Mandelbrot2D");
    reveal_strlit("BurningShip2D");
    reveal_strlit("Tricorn2D");
    assert(seq!['M', 'a', 'n', 'd', 'e', 'l', 'b', 'r', 'o', 't', '2', 'D'] =~= "Mandelbrot2D"@);
    assert(seq!['B', 'u', 'r', 'n', 'i', 'n', 'g', 'S', 'h', 'i', 'p', '2', 'D'] =~= "BurningShip2D"@);
    assert(seq!['T', 'r', 'i', 'c', 'o', 'r', 'n', '2', 'D'] =~= "Tricorn2D"@);
}

} // verus!
