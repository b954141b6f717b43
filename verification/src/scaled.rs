//! Scaled decimal numbers. Instrument responses and output rows carry
//! decimal text; the library holds each such quantity as an integer number
//! of units of `10^-scale` (for example, a wavelength in nanometres at
//! scale 4 is an integer count of `0.0001 nm` steps). This module renders
//! such integers as decimal text with a fixed number of fraction digits and
//! parses decimal text (optional sign, fraction and exponent) into them,
//! truncating toward zero.

use vstd::prelude::*;

use crate::text::trimmed;
use crate::text::trim;

verus! {

pub open spec fn pow10(e: nat) -> nat
    decreases e
{
    if e == 0 {
        1
    } else {
        10 * pow10((e - 1) as nat)
    }
}

pub proof fn lemma_pow10_pos(e: nat)
    ensures
        pow10(e) >= 1,
    decreases e,
{
    if e > 0 {
        lemma_pow10_pos((e - 1) as nat);
    }
}

pub proof fn lemma_pow10_mono(a: nat, b: nat)
    requires
        a <= b,
    ensures
        pow10(a) <= pow10(b),
    decreases b,
{
    if a < b {
        lemma_pow10_mono(a, (b - 1) as nat);
        lemma_pow10_pos((b - 1) as nat);
    }
}

/// `10^e` as a machine integer; `10^19` is the largest power that fits.
pub fn pow10_u64(e: u32) -> (r: u64)
    requires
        e <= 19,
    ensures
        r == pow10(e as nat),
{
    proof {
        reveal_with_fuel(pow10, 21);
        assert(pow10(19) == 10000000000000000000);
    }
    let mut r: u64 = 1;
    let mut k: u32 = 0;
    while k < e
        invariant
            k <= e <= 19,
            r == pow10(k as nat),
        decreases e - k,
    {
        proof {
            assert(pow10((k + 1) as nat) == 10 * pow10(k as nat));
            lemma_pow10_mono((k + 1) as nat, 19);
            reveal_with_fuel(pow10, 21);
            assert(pow10(19) == 10000000000000000000);
        }
        r = r * 10;
        k = k + 1;
    }
    r
}

pub open spec fn digit_char(d: nat) -> char {
    if d == 0 {
        '0'
    } else if d == 1 {
        '1'
    } else if d == 2 {
        '2'
    } else if d == 3 {
        '3'
    } else if d == 4 {
        '4'
    } else if d == 5 {
        '5'
    } else if d == 6 {
        '6'
    } else if d == 7 {
        '7'
    } else if d == 8 {
        '8'
    } else {
        '9'
    }
}

pub open spec fn is_digit(c: char) -> bool {
    48 <= c as u32 && c as u32 <= 57
}

pub open spec fn digit_val(c: char) -> nat {
    (c as u32 - 48) as nat
}

/// Value of a sequence of decimal digit characters, most significant first.
pub open spec fn digits_val(s: Seq<char>) -> nat
    decreases s.len()
{
    if s.len() == 0 {
        0
    } else {
        digits_val(s.drop_last()) * 10 + digit_val(s.last())
    }
}

/// Decimal rendering of a natural number, no leading zeros except for 0.
pub open spec fn udec(n: nat) -> Seq<char>
    decreases n
{
    if n < 10 {
        seq![digit_char(n)]
    } else {
        udec(n / 10).push(digit_char(n % 10))
    }
}

/// Exactly `k` decimal digits of `n`, zero padded on the left.
pub open spec fn padded(n: nat, k: nat) -> Seq<char>
    decreases k
{
    if k == 0 {
        Seq::<char>::empty()
    } else {
        padded(n / 10, (k - 1) as nat).push(digit_char(n % 10))
    }
}

/// Rendering of `v` units of `10^-k` as decimal text with a sign for
/// negative values, at least one integer digit, and exactly `k` fraction
/// digits: `fixed_str(-12345, 2) == "-123.45"@`.
pub open spec fn fixed_str(v: int, k: nat) -> Seq<char> {
    let a = (if v < 0 { -v } else { v }) as nat;
    let sign: Seq<char> = if v < 0 { seq!['-'] } else { Seq::<char>::empty() };
    sign + udec(a / pow10(k)) + seq!['.'] + padded(a % pow10(k), k)
}

/// The largest mantissa-digit value the parser accepts; thirty digits of
/// precision, far beyond any instrument reading.
pub const MANT_CAP: u128 = 1000000000000000000000000000000;

/// The largest exponent magnitude the parser accepts.
pub const EXP_CAP: u64 = 1000000000;

const I64_MAX_U128: u128 = 9223372036854775807;

/// First index at or after `i` that does not hold a decimal digit.
pub open spec fn end_digits(s: Seq<char>, i: int) -> int
    decreases s.len() - i when 0 <= i <= s.len()
{
    if i < s.len() && is_digit(s[i]) {
        end_digits(s, i + 1)
    } else {
        i
    }
}

pub proof fn lemma_digits_val_push(s: Seq<char>, c: char)
    ensures
        digits_val(s.push(c)) == digits_val(s) * 10 + digit_val(c),
{
    assert(s.push(c).drop_last() =~= s);
    assert(s.push(c).last() == c);
}

/// The shape a numeric response must have, after trimming: an optional
/// sign, digits with at most one point among them (at least one digit),
/// and an optional exponent part `e`/`E` with optional sign and digits.
/// Yields the sign, the mantissa digits read as one integer, and the
/// power of ten it carries (fraction digits count negatively); `None`
/// where the text has another shape or the exponent magnitude is over
/// `EXP_CAP`.
pub open spec fn scan_number(s: Seq<char>) -> Option<(bool, nat, int)> {
    let neg = s.len() > 0 && s[0] == '-';
    let i0: int = if s.len() > 0 && (s[0] == '-' || s[0] == '+') {
        1
    } else {
        0
    };
    let i1 = end_digits(s, i0);
    let fstart: int = if i1 < s.len() && s[i1] == '.' {
        i1 + 1
    } else {
        i1
    };
    let i2 = end_digits(s, fstart);
    if i1 == i0 && i2 == fstart {
        None
    } else {
        let m = digits_val(s.subrange(i0, i1) + s.subrange(fstart, i2));
        let flen = i2 - fstart;
        if i2 == s.len() {
            Some((neg, m, -flen))
        } else if s[i2] == 'e' || s[i2] == 'E' {
            let eneg = i2 + 1 < s.len() && s[i2 + 1] == '-';
            let j0: int = if i2 + 1 < s.len() && (s[i2 + 1] == '-' || s[i2 + 1] == '+') {
                i2 + 2
            } else {
                i2 + 1
            };
            let j1 = end_digits(s, j0);
            if j0 == j1 || j1 != s.len() {
                None
            } else {
                let e = digits_val(s.subrange(j0, j1));
                if e > EXP_CAP as nat {
                    None
                } else {
                    Some((neg, m, (if eneg { -(e as int) } else { e as int }) - flen))
                }
            }
        } else {
            None
        }
    }
}

/// The magnitude `m * 10^e`, truncated toward zero where `e` is negative.
pub open spec fn scaled_mag(m: nat, e: int) -> nat {
    if e >= 0 {
        m * pow10(e as nat)
    } else {
        m / pow10((-e) as nat)
    }
}

/// What parsing decimal text into units of `10^-scale` yields: the text's
/// numeric value scaled by `10^scale` and truncated toward zero, or `None`
/// where the text (after trimming) is not a decimal number, its mantissa
/// has a value over `MANT_CAP`, or the result does not fit an `i64`.
pub open spec fn parse_scaled_spec(s: Seq<char>, scale: int) -> Option<int> {
    match scan_number(trimmed(s)) {
        None => None,
        Some((neg, m, e10)) => {
            if m > MANT_CAP as nat {
                None
            } else {
                let mag = scaled_mag(m, e10 + scale);
                if mag > i64::MAX as nat {
                    None
                } else {
                    Some(if neg { -(mag as int) } else { mag as int })
                }
            }
        },
    }
}

/// What parsing an unsigned integer response yields: the digits' value,
/// or `None` where the trimmed text is not `+`-or-nothing followed by
/// digits only, or the value is over `u64::MAX`.
pub open spec fn scan_uint(s: Seq<char>) -> Option<nat> {
    let i0: int = if s.len() > 0 && s[0] == '+' {
        1
    } else {
        0
    };
    let j = end_digits(s, i0);
    if j == i0 || j != s.len() {
        None
    } else {
        let v = digits_val(s.subrange(i0, j));
        if v > u64::MAX as nat {
            None
        } else {
            Some(v)
        }
    }
}

pub open spec fn parse_uint_spec(s: Seq<char>) -> Option<nat> {
    scan_uint(trimmed(s))
}

fn is_digit_exec(c: char) -> (r: bool)
    ensures
        r == is_digit(c),
{
    let u = c as u32;
    48 <= u && u <= 57
}

fn digit_str(d: u64) -> (r: &'static str)
    requires
        d < 10,
    ensures
        r@ =~= seq![digit_char(d as nat)],
{
    if d == 0 {
        proof { reveal_strlit("0"); }
        "0"
    } else if d == 1 {
        proof { reveal_strlit("1"); }
        "1"
    } else if d == 2 {
        proof { reveal_strlit("2"); }
        "2"
    } else if d == 3 {
        proof { reveal_strlit("3"); }
        "3"
    } else if d == 4 {
        proof { reveal_strlit("4"); }
        "4"
    } else if d == 5 {
        proof { reveal_strlit("5"); }
        "5"
    } else if d == 6 {
        proof { reveal_strlit("6"); }
        "6"
    } else if d == 7 {
        proof { reveal_strlit("7"); }
        "7"
    } else if d == 8 {
        proof { reveal_strlit("8"); }
        "8"
    } else {
        proof { reveal_strlit("9"); }
        "9"
    }
}

fn udec_string(n: u64) -> (r: String)
    ensures
        r@ == udec(n as nat),
    decreases n,
{
    if n < 10 {
        String::from_str(digit_str(n))
    } else {
        let mut s = udec_string(n / 10);
        s.append(digit_str(n % 10));
        proof {
            assert(s@ =~= udec(n as nat));
        }
        s
    }
}

fn padded_string(n: u64, k: u32) -> (r: String)
    ensures
        r@ == padded(n as nat, k as nat),
    decreases k,
{
    if k == 0 {
        let r = String::from_str("");
        proof {
            reveal_strlit("");
            assert(r@ =~= padded(n as nat, 0));
        }
        r
    } else {
        let mut s = padded_string(n / 10, k - 1);
        s.append(digit_str(n % 10));
        proof {
            assert(s@ =~= padded(n as nat, k as nat));
        }
        s
    }
}

/// Scan a run of decimal digits of `t` from `from` on, folding them into
/// an accumulator that already holds the value of the digits in `prefix`.
/// Returns the end of the run, the accumulated value, and whether the
/// value of all digits seen (prefix included) is over `cap`.
fn digits_run(t: &str, from: usize, cap: u128, acc0: u128, over0: bool, Ghost(prefix): Ghost<
    Seq<char>,
>) -> (res: (usize, u128, bool))
    requires
        from <= t@.len(),
        cap <= MANT_CAP,
        !over0 ==> acc0 == digits_val(prefix) && acc0 <= cap,
        over0 ==> digits_val(prefix) > cap,
    ensures
        res.0 == end_digits(t@, from as int),
        from <= res.0 <= t@.len(),
        !res.2 ==> res.1 as nat == digits_val(prefix + t@.subrange(from as int, res.0 as int))
            && res.1 <= cap,
        res.2 ==> digits_val(prefix + t@.subrange(from as int, res.0 as int)) > cap,
{
    let ghost ts = t@;
    let n = t.unicode_len();
    let mut acc = acc0;
    let mut over = over0;
    let mut j = from;
    proof {
        assert(prefix + ts.subrange(from as int, from as int) =~= prefix);
    }
    while j < n && is_digit_exec(t.get_char(j))
        invariant
            from <= j <= n == ts.len(),
            ts == t@,
            cap <= MANT_CAP,
            end_digits(ts, from as int) == end_digits(ts, j as int),
            !over ==> acc as nat == digits_val(prefix + ts.subrange(from as int, j as int))
                && acc <= cap,
            over ==> digits_val(prefix + ts.subrange(from as int, j as int)) > cap,
        decreases n - j,
    {
        let d = (t.get_char(j) as u32 - 48) as u128;
        proof {
            assert(prefix + ts.subrange(from as int, j as int + 1) =~= (prefix + ts.subrange(
                from as int,
                j as int,
            )).push(ts[j as int]));
            lemma_digits_val_push(prefix + ts.subrange(from as int, j as int), ts[j as int]);
        }
        if !over {
            let acc2 = acc * 10 + d;
            if acc2 > cap {
                over = true;
            } else {
                acc = acc2;
            }
        }
        j = j + 1;
    }
    (j, acc, over)
}

/// The scaled magnitude `m * 10^e` truncated toward zero, or `None`
/// exactly where it is over `i64::MAX`.
fn scale_mag(m: u128, e: i128) -> (r: Option<u128>)
    requires
        m <= MANT_CAP,
        -1000000000000000000000 <= e <= 1000000000000000000000,
    ensures
        r is None <==> scaled_mag(m as nat, e as int) > i64::MAX as nat,
        r matches Some(v) ==> v as nat == scaled_mag(m as nat, e as int) && v <= I64_MAX_U128,
{
    if m == 0 {
        proof {
            if e < 0 {
                lemma_pow10_pos((-e) as nat);
                vstd::arithmetic::div_mod::lemma_basic_div(0, pow10((-e) as nat) as int);
            }
        }
        return Some(0);
    }
    if e >= 0 {
        if e >= 19 {
            proof {
                lemma_pow10_mono(19, e as nat);
                reveal_with_fuel(pow10, 21);
                assert(pow10(19) == 10000000000000000000);
                vstd::arithmetic::mul::lemma_mul_inequality(1, m as int, pow10(e as nat) as int);
            }
            return None;
        }
        let eu = e as u32;
        proof {
            assert(eu as nat == e as nat);
        }
        let mut acc = m;
        if acc > I64_MAX_U128 {
            proof {
                lemma_pow10_pos(eu as nat);
                vstd::arithmetic::mul::lemma_mul_inequality(1, pow10(eu as nat) as int, m as int);
            }
            return None;
        }
        let mut k2: u32 = 0;
        while k2 < eu
            invariant
                k2 <= eu <= 18,
                0 <= e < 19,
                eu as nat == e as nat,
                m <= MANT_CAP,
                acc <= I64_MAX_U128,
                m as nat * pow10(eu as nat) == acc as nat * pow10((eu - k2) as nat),
            decreases eu - k2,
        {
            proof {
                assert(pow10((eu - k2) as nat) == 10 * pow10((eu - k2 - 1) as nat));
                vstd::arithmetic::mul::lemma_mul_is_associative(
                    acc as int,
                    10,
                    pow10((eu - k2 - 1) as nat) as int,
                );
            }
            let acc2 = acc * 10;
            if acc2 > I64_MAX_U128 {
                proof {
                    lemma_pow10_pos((eu - k2 - 1) as nat);
                    vstd::arithmetic::mul::lemma_mul_inequality(
                        1,
                        pow10((eu - k2 - 1) as nat) as int,
                        acc2 as int,
                    );
                    assert(eu as nat == e as nat);
                    assert(e as int >= 0);
                    assert(scaled_mag(m as nat, e as int) == m as nat * pow10((e as int) as nat));
                    assert(m as nat * pow10(eu as nat) == acc2 as nat * pow10(
                        (eu - k2 - 1) as nat,
                    ));
                    assert(acc2 as nat <= acc2 as nat * pow10((eu - k2 - 1) as nat));
                }
                return None;
            }
            acc = acc2;
            k2 = k2 + 1;
        }
        proof {
            assert(k2 == eu);
            assert(pow10(0) == 1);
            assert(pow10((eu - k2) as nat) == 1);
            assert(m as nat * pow10(eu as nat) == acc as nat * pow10((eu - k2) as nat));
            assert(acc as nat == m as nat * pow10(eu as nat)) by (nonlinear_arith)
                requires
                    m as nat * pow10(eu as nat) == acc as nat * pow10((eu - k2) as nat),
                    pow10((eu - k2) as nat) == 1,
            {
            }
            assert(acc as nat == scaled_mag(m as nat, e as int));
        }
        Some(acc)
    } else {
        let ne = -e;
        if ne >= 31 {
            proof {
                reveal_with_fuel(pow10, 32);
                assert(pow10(31) == 10000000000000000000000000000000);
                lemma_pow10_mono(31, ne as nat);
                vstd::arithmetic::div_mod::lemma_basic_div(m as int, pow10(ne as nat) as int);
            }
            return Some(0);
        }
        let nu = ne as u32;
        proof {
            assert(nu as nat == (-e) as nat);
        }
        let mut acc = m;
        let mut k2: u32 = 0;
        proof {
            assert(pow10(0) == 1);
            vstd::arithmetic::div_mod::lemma_div_basics(m as int);
        }
        while k2 < nu
            invariant
                k2 <= nu <= 30,
                e < 0,
                nu as nat == (-e) as nat,
                m <= MANT_CAP,
                acc as nat == m as nat / pow10(k2 as nat),
            decreases nu - k2,
        {
            proof {
                lemma_pow10_pos(k2 as nat);
                vstd::arithmetic::div_mod::lemma_div_denominator(
                    m as int,
                    pow10(k2 as nat) as int,
                    10,
                );
                assert(pow10((k2 + 1) as nat) == pow10(k2 as nat) * 10);
            }
            acc = acc / 10;
            k2 = k2 + 1;
        }
        proof {
            assert(acc as nat == m as nat / pow10(nu as nat));
            assert(acc as nat == scaled_mag(m as nat, e as int));
        }
        if acc > I64_MAX_U128 {
            None
        } else {
            Some(acc)
        }
    }
}

/// Parse decimal text into units of `10^-scale`, truncating toward zero;
/// `None` exactly where `parse_scaled_spec` says so.
#[verifier::rlimit(60)]
pub fn parse_scaled(s: &str, scale: u32) -> (r: Option<i64>)
    ensures
        r is Some <==> parse_scaled_spec(s@, scale as int) is Some,
        r matches Some(v) ==> parse_scaled_spec(s@, scale as int) == Some(v as int),
{
    let t = trim(s);
    let ghost ts = t@;
    let n = t.unicode_len();
    let mut neg = false;
    let mut i0: usize = 0;
    if n > 0 {
        let c0 = t.get_char(0);
        if c0 == '-' {
            neg = true;
            i0 = 1;
        } else if c0 == '+' {
            i0 = 1;
        }
    }
    let (i1, m1, ov1) = digits_run(t, i0, MANT_CAP, 0, false, Ghost(Seq::<char>::empty()));
    let mut fstart = i1;
    if i1 < n && t.get_char(i1) == '.' {
        fstart = i1 + 1;
    }
    let ghost ipart = Seq::<char>::empty() + ts.subrange(i0 as int, i1 as int);
    let (i2, m2, ov2) = digits_run(t, fstart, MANT_CAP, m1, ov1, Ghost(ipart));
    if i1 == i0 && i2 == fstart {
        return None;
    }
    proof {
        assert(ipart + ts.subrange(fstart as int, i2 as int) =~= ts.subrange(i0 as int, i1 as int)
            + ts.subrange(fstart as int, i2 as int));
    }
    let flen = i2 - fstart;
    let mut e10: i128 = -(flen as i128);
    if i2 < n {
        let ce = t.get_char(i2);
        if ce != 'e' && ce != 'E' {
            return None;
        }
        let mut eneg = false;
        let mut j0 = i2 + 1;
        if i2 + 1 < n {
            let cs = t.get_char(i2 + 1);
            if cs == '-' {
                eneg = true;
                j0 = i2 + 2;
            } else if cs == '+' {
                j0 = i2 + 2;
            }
        }
        let (j1, eacc, eov) = digits_run(t, j0, EXP_CAP as u128, 0, false, Ghost(
            Seq::<char>::empty(),
        ));
        if j1 == j0 || j1 < n {
            return None;
        }
        proof {
            assert(Seq::<char>::empty() + ts.subrange(j0 as int, j1 as int) =~= ts.subrange(
                j0 as int,
                j1 as int,
            ));
        }
        if eov {
            return None;
        }
        e10 = (if eneg {
            -(eacc as i128)
        } else {
            eacc as i128
        }) - flen as i128;
    }
    if ov2 {
        return None;
    }
    proof {
        assert(scan_number(ts) == Some((neg, m2 as nat, e10 as int)));
    }
    let mag_opt = scale_mag(m2, e10 + scale as i128);
    match mag_opt {
        None => None,
        Some(v) => {
            if neg {
                Some(-(v as i64))
            } else {
                Some(v as i64)
            }
        },
    }
}

/// Parse an unsigned integer response; `None` exactly where
/// `parse_uint_spec` says so.
pub fn parse_uint(s: &str) -> (r: Option<u64>)
    ensures
        r is Some <==> parse_uint_spec(s@) is Some,
        r matches Some(v) ==> parse_uint_spec(s@) == Some(v as nat),
{
    let t = trim(s);
    let ghost ts = t@;
    let n = t.unicode_len();
    let mut i0: usize = 0;
    if n > 0 && t.get_char(0) == '+' {
        i0 = 1;
    }
    let (j, m, over) = digits_run(t, i0, u64::MAX as u128, 0, false, Ghost(Seq::<char>::empty()));
    if j == i0 || j < n {
        return None;
    }
    proof {
        assert(Seq::<char>::empty() + ts.subrange(i0 as int, j as int) =~= ts.subrange(
            i0 as int,
            j as int,
        ));
    }
    if over {
        return None;
    }
    Some(m as u64)
}




/// A parse that never fails: where `parse_scaled_spec` yields nothing,
/// the given fallback stands in.
pub open spec fn parse_scaled_or_spec(s: Seq<char>, scale: int, fb: int) -> int {
    match parse_scaled_spec(s, scale) {
        Some(v) => v,
        None => fb,
    }
}

/// Parse decimal text into units of `10^-scale`, the fallback standing in
/// where the text is unusable.
pub fn parse_scaled_or(s: &str, scale: u32, fb: i64) -> (r: i64)
    ensures
        r as int == parse_scaled_or_spec(s@, scale as int, fb as int),
{
    match parse_scaled(s, scale) {
        Some(v) => v,
        None => fb,
    }
}

/// Render `v` units of `10^-k` as decimal text with exactly `k` fraction
/// digits, as `fixed_str` describes.
pub fn fmt_fixed(v: i64, k: u32) -> (r: String)
    requires
        k <= 19,
    ensures
        r@ == fixed_str(v as int, k as nat),
{
    let a: u64 = if v < 0 {
        (-(v as i128)) as u64
    } else {
        v as u64
    };
    let p = pow10_u64(k);
    proof {
        lemma_pow10_pos(k as nat);
    }
    let ip = a / p;
    let fp = a % p;
    let mut out = if v < 0 {
        let h = String::from_str("-");
        proof {
            reveal_strlit("-");
        }
        h
    } else {
        let h = String::from_str("");
        proof {
            reveal_strlit("");
        }
        h
    };
    let ips = udec_string(ip);
    out.append(ips.as_str());
    proof {
        reveal_strlit(".");
    }
    out.append(".");
    let fps = padded_string(fp, k);
    out.append(fps.as_str());
    proof {
        assert(out@ =~= fixed_str(v as int, k as nat));
    }
    out
}

} // verus!
