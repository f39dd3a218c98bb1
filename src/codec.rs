//! Unit codec: decimal text to and from the integer domains the device uses.
//!
//! Values arrive as plain decimal text, and integral fields are often written
//! with a fractional part ("39.0"). A number is read as
//! `[+|-] digits [. digits]` with at least one digit; integral targets keep
//! the whole part (truncation toward zero) and saturate at their bounds.
//! The text is read exactly, with no rounding to a binary float on the way;
//! exponents, infinities and NaN are not numbers here.
use vstd::prelude::*;

verus! {

/// The digit accumulator holds values exactly below this bound and saturates at it.
pub const DIGIT_CAP: u128 = 0x1_0000_0000_0000_0000;

/// Why a setter refused a value.
#[derive(Debug, Clone, Copy, PartialEq, Eq, Structural)]
pub enum SettingError {
    /// The value lies outside the field's range.
    OutOfRange,
    /// The field has no meaning in the current mode.
    UnavailableInMode,
}

/// Why a recognised attribute's value could not be decoded.
#[derive(Debug, Clone, Copy, PartialEq, Eq, Structural)]
pub enum ParseError {
    /// The value is not an unsigned decimal integer.
    ExpectedInt,
    /// The value is not a decimal number.
    ExpectedFloat,
}

pub open spec fn is_digit(c: char) -> bool {
    '0' <= c && c <= '9'
}

pub open spec fn digit_value(c: char) -> nat {
    (c as int - '0' as int) as nat
}

/// The number that a string of decimal digits denotes.
pub open spec fn digits_value(s: Seq<char>) -> nat
    decreases s.len(),
{
    if s.len() == 0 {
        0
    } else {
        digits_value(s.drop_last()) * 10 + digit_value(s.last())
    }
}

/// End of the longest run of digits in `s` that starts at `start`.
pub open spec fn digit_run(s: Seq<char>, start: int) -> int
    decreases s.len() - start,
{
    if 0 <= start < s.len() && is_digit(s[start]) {
        digit_run(s, start + 1)
    } else {
        start
    }
}

pub open spec fn capped(v: nat) -> nat {
    if v < DIGIT_CAP {
        v
    } else {
        DIGIT_CAP as nat
    }
}

pub open spec fn sign_len(s: Seq<char>) -> int {
    if s.len() > 0 && (s[0] == '+' || s[0] == '-') {
        1
    } else {
        0
    }
}

/// The `i`-th digit of a fraction, zero past its end.
pub open spec fn frac_digit(f: Seq<char>, i: int) -> nat {
    if i < f.len() {
        digit_value(f[i])
    } else {
        0
    }
}

/// A fraction's value in thousandths; digits past the third are cut off.
pub open spec fn thousandths(f: Seq<char>) -> nat {
    frac_digit(f, 0) * 100 + frac_digit(f, 1) * 10 + frac_digit(f, 2)
}

/// A decimal number as (negative, whole part, thousandths of the fraction),
/// or `None` where the text is not `[+|-] digits [. digits]` with a digit in it.
pub open spec fn decimal_of(s: Seq<char>) -> Option<(bool, nat, nat)> {
    let st = sign_len(s);
    let e = digit_run(s, st);
    let neg = st == 1 && s[0] == '-';
    if e == s.len() {
        if e > st {
            Some((neg, digits_value(s.subrange(st, e)), 0))
        } else {
            None
        }
    } else if s[e] == '.' {
        let f = digit_run(s, e + 1);
        if f == s.len() && (e > st || f > e + 1) {
            Some((neg, digits_value(s.subrange(st, e)), thousandths(s.subrange(e + 1, f))))
        } else {
            None
        }
    } else {
        None
    }
}

/// An unsigned integer `[+] digits`, or `None`.
pub open spec fn unsigned_of(s: Seq<char>) -> Option<nat> {
    let st: int = if s.len() > 0 && s[0] == '+' {
        1
    } else {
        0
    };
    let e = digit_run(s, st);
    if e == s.len() && e > st {
        Some(digits_value(s.subrange(st, e)))
    } else {
        None
    }
}

/// A decimal cast to an unsigned byte: whole part, saturated to `0..=255`.
pub open spec fn byte_of(d: (bool, nat, nat)) -> u8 {
    if d.0 {
        0
    } else if d.1 > 255 {
        255
    } else {
        d.1 as u8
    }
}

/// A decimal cast to a signed byte: whole part toward zero, saturated to `-128..=127`.
pub open spec fn signed_byte_of(d: (bool, nat, nat)) -> i8 {
    if d.0 {
        if d.1 > 128 {
            -128i8
        } else {
            (-(d.1 as int)) as i8
        }
    } else if d.1 > 127 {
        127
    } else {
        d.1 as i8
    }
}

/// A non-negative decimal in thousandths (millihertz for a frequency), if it fits a `u32`.
pub open spec fn milli_of(d: (bool, nat, nat)) -> Option<u32> {
    if d.0 || d.1 * 1000 + d.2 > u32::MAX {
        None
    } else {
        Some((d.1 * 1000 + d.2) as u32)
    }
}

pub open spec fn spec_parse_byte(s: Seq<char>) -> Result<u8, ParseError> {
    match decimal_of(s) {
        Some(d) => Ok(byte_of(d)),
        None => Err(ParseError::ExpectedFloat),
    }
}

pub open spec fn spec_parse_signed_byte(s: Seq<char>) -> Result<i8, ParseError> {
    match decimal_of(s) {
        Some(d) => Ok(signed_byte_of(d)),
        None => Err(ParseError::ExpectedFloat),
    }
}

pub open spec fn spec_parse_milli(s: Seq<char>) -> Result<u32, ParseError> {
    match decimal_of(s) {
        Some(d) => match milli_of(d) {
            Some(m) => Ok(m),
            None => Err(ParseError::ExpectedFloat),
        },
        None => Err(ParseError::ExpectedFloat),
    }
}

pub open spec fn spec_parse_index(s: Seq<char>) -> Result<usize, ParseError> {
    match unsigned_of(s) {
        Some(v) => if v <= usize::MAX {
            Ok(v as usize)
        } else {
            Err(ParseError::ExpectedInt)
        },
        None => Err(ParseError::ExpectedInt),
    }
}

/// Whether `a` and `b` hold the same characters.
pub fn str_eq(a: &str, b: &str) -> (r: bool)
    ensures
        r == (a@ == b@),
{
    let n = a.unicode_len();
    if n != b.unicode_len() {
        return false;
    }
    let mut i: usize = 0;
    while i < n
        invariant
            n == a@.len(),
            n == b@.len(),
            i <= n,
            forall|j: int| 0 <= j < i ==> a@[j] == b@[j],
        decreases n - i,
    {
        if a.get_char(i) != b.get_char(i) {
            return false;
        }
        i = i + 1;
    }
    proof {
        assert(a@ =~= b@);
    }
    true
}

fn digit_of(c: char) -> (r: u128)
    requires
        is_digit(c),
    ensures
        r == digit_value(c),
        r < 10,
{
    (c as u32 - '0' as u32) as u128
}

/// Reads the run of digits that starts at `start`, saturating its value at `DIGIT_CAP`.
fn scan_digits(s: &str, n: usize, start: usize) -> (r: (usize, u128))
    requires
        n == s@.len(),
        start <= n,
    ensures
        r.0 == digit_run(s@, start as int),
        start <= r.0 <= n,
        forall|j: int| start <= j < r.0 ==> is_digit(s@[j]),
        r.1 == capped(digits_value(s@.subrange(start as int, r.0 as int))),
{
    let mut i: usize = start;
    let mut acc: u128 = 0;
    proof {
        assert(s@.subrange(start as int, start as int) =~= Seq::<char>::empty());
    }
    while i < n
        invariant
            n == s@.len(),
            start <= i <= n,
            forall|j: int| start <= j < i ==> is_digit(s@[j]),
            acc == capped(digits_value(s@.subrange(start as int, i as int))),
            digit_run(s@, start as int) == digit_run(s@, i as int),
        ensures
            digit_run(s@, i as int) == i,
        decreases n - i,
    {
        let c = s.get_char(i);
        if !('0' <= c && c <= '9') {
            break;
        }
        let d = digit_of(c);
        proof {
            let old_run = s@.subrange(start as int, i as int);
            let new_run = s@.subrange(start as int, i + 1);
            assert(new_run.drop_last() =~= old_run);
            assert(digits_value(new_run) == digits_value(old_run) * 10 + d);
        }
        if acc < DIGIT_CAP {
            let t = acc * 10 + d;
            acc = if t < DIGIT_CAP {
                t
            } else {
                DIGIT_CAP
            };
        }
        i = i + 1;
    }
    (i, acc)
}

/// Reads a decimal number: sign, whole part (saturated at `DIGIT_CAP`) and thousandths.
fn scan_decimal(s: &str) -> (r: Option<(bool, u128, u128)>)
    ensures
        match decimal_of(s@) {
            None => r is None,
            Some(d) => r == Some((d.0, capped(d.1) as u128, d.2 as u128)),
        },
        r is Some ==> r.unwrap().2 < 1000,
        decimal_of(s@) is Some ==> decimal_of(s@).unwrap().2 < 1000,
{
    let n = s.unicode_len();
    let mut st: usize = 0;
    let mut neg = false;
    if n > 0 {
        let c = s.get_char(0);
        if c == '+' || c == '-' {
            st = 1;
            neg = c == '-';
        }
    }
    let (e, whole) = scan_digits(s, n, st);
    if e == n {
        if e > st {
            return Some((neg, whole, 0));
        }
        return None;
    }
    if s.get_char(e) != '.' {
        return None;
    }
    let (f, _) = scan_digits(s, n, e + 1);
    if f != n || !(e > st || f > e + 1) {
        return None;
    }
    let fs = e + 1;
    let d0: u128 = if fs < f {
        digit_of(s.get_char(fs))
    } else {
        0
    };
    let d1: u128 = if f - fs > 1 {
        digit_of(s.get_char(fs + 1))
    } else {
        0
    };
    let d2: u128 = if f - fs > 2 {
        digit_of(s.get_char(fs + 2))
    } else {
        0
    };
    proof {
        let frac = s@.subrange(fs as int, f as int);
        assert(d0 == frac_digit(frac, 0));
        assert(d1 == frac_digit(frac, 1));
        assert(d2 == frac_digit(frac, 2));
    }
    Some((neg, whole, d0 * 100 + d1 * 10 + d2))
}

/// Reads an unsigned byte the way a float-then-cast reader does.
pub fn parse_byte(s: &str) -> (r: Result<u8, ParseError>)
    ensures
        r == spec_parse_byte(s@),
{
    match scan_decimal(s) {
        None => Err(ParseError::ExpectedFloat),
        Some((neg, whole, _)) => {
            if neg {
                Ok(0)
            } else if whole > 255 {
                Ok(255)
            } else {
                Ok(whole as u8)
            }
        },
    }
}

/// Reads a signed byte the way a float-then-cast reader does.
pub fn parse_signed_byte(s: &str) -> (r: Result<i8, ParseError>)
    ensures
        r == spec_parse_signed_byte(s@),
{
    match scan_decimal(s) {
        None => Err(ParseError::ExpectedFloat),
        Some((neg, whole, _)) => {
            if neg {
                if whole > 128 {
                    Ok(-128)
                } else {
                    Ok((0 - (whole as i16)) as i8)
                }
            } else if whole > 127 {
                Ok(127)
            } else {
                Ok(whole as i8)
            }
        },
    }
}

/// Reads a non-negative decimal in thousandths of its unit.
pub fn parse_milli(s: &str) -> (r: Result<u32, ParseError>)
    ensures
        r == spec_parse_milli(s@),
{
    match scan_decimal(s) {
        None => Err(ParseError::ExpectedFloat),
        Some((neg, whole, frac)) => {
            if neg || whole > 0x1_0000_0000 {
                Err(ParseError::ExpectedFloat)
            } else {
                proof {
                    let d = decimal_of(s@).unwrap();
                    assert(d.1 == whole);
                    assert(d.2 == frac);
                }
                let m = whole * 1000 + frac;
                if m > 0xffff_ffff {
                    Err(ParseError::ExpectedFloat)
                } else {
                    Ok(m as u32)
                }
            }
        },
    }
}

/// Reads an unsigned integer index.
pub fn parse_index(s: &str) -> (r: Result<usize, ParseError>)
    ensures
        r == spec_parse_index(s@),
{
    let n = s.unicode_len();
    let mut st: usize = 0;
    if n > 0 && s.get_char(0) == '+' {
        st = 1;
    }
    let (e, v) = scan_digits(s, n, st);
    if e != n || e == st {
        return Err(ParseError::ExpectedInt);
    }
    if v > usize::MAX as u128 {
        return Err(ParseError::ExpectedInt);
    }
    Ok(v as usize)
}

pub open spec fn digit_char(d: nat) -> char {
    if d == 0 {
        '0'
    } else if d == 1 {
        '1'
    } else if d == 2 {
        '2'
    } else if d == 3 {
        '3'
    } else if d == 4 {
        '4'
    } else if d == 5 {
        '5'
    } else if d == 6 {
        '6'
    } else if d == 7 {
        '7'
    } else if d == 8 {
        '8'
    } else {
        '9'
    }
}

/// The shortest decimal text of `n`.
pub open spec fn decimal_digits(n: nat) -> Seq<char>
    decreases n,
{
    if n < 10 {
        seq![digit_char(n)]
    } else {
        decimal_digits(n / 10).push(digit_char(n % 10))
    }
}

/// Decimal text of a signed integer, with a leading `-` when negative.
pub open spec fn signed_decimal(x: int) -> Seq<char> {
    if x < 0 {
        seq!['-'] + decimal_digits((-x) as nat)
    } else {
        decimal_digits(x as nat)
    }
}

/// Shortest text of a fraction given in thousandths (`0 < f < 1000`), trailing zeros dropped.
pub open spec fn fraction_digits(f: nat) -> Seq<char> {
    if f % 100 == 0 {
        seq![digit_char(f / 100)]
    } else if f % 10 == 0 {
        seq![digit_char(f / 100), digit_char((f / 10) % 10)]
    } else {
        seq![digit_char(f / 100), digit_char((f / 10) % 10), digit_char(f % 10)]
    }
}

/// Text of a value given in thousandths: whole part, then the fraction if it is not zero.
pub open spec fn milli_decimal(m: nat) -> Seq<char> {
    if m % 1000 == 0 {
        decimal_digits(m / 1000)
    } else {
        decimal_digits(m / 1000).push('.') + fraction_digits(m % 1000)
    }
}

fn digit_str(d: u64) -> (r: &'static str)
    requires
        d < 10,
    ensures
        r@ == seq![digit_char(d as nat)],
{
    proof {
        reveal_strlit("0");
        reveal_strlit("1");
        reveal_strlit("2");
        reveal_strlit("3");
        reveal_strlit("4");
        reveal_strlit("5");
        reveal_strlit("6");
        reveal_strlit("7");
        reveal_strlit("8");
        reveal_strlit("9");
    }
    if d == 0 {
        "0"
    } else if d == 1 {
        "1"
    } else if d == 2 {
        "2"
    } else if d == 3 {
        "3"
    } else if d == 4 {
        "4"
    } else if d == 5 {
        "5"
    } else if d == 6 {
        "6"
    } else if d == 7 {
        "7"
    } else if d == 8 {
        "8"
    } else {
        "9"
    }
}

/// Writes `n` in decimal.
pub fn format_unsigned(n: u64) -> (r: String)
    ensures
        r@ == decimal_digits(n as nat),
    decreases n,
{
    if n < 10 {
        String::from_str(digit_str(n))
    } else {
        let mut s = format_unsigned(n / 10);
        s.append(digit_str(n % 10));
        s
    }
}

/// Writes `x` in decimal, with a leading `-` when negative.
pub fn format_signed(x: i64) -> (r: String)
    requires
        x > i64::MIN,
    ensures
        r@ == signed_decimal(x as int),
{
    if x < 0 {
        proof {
            reveal_strlit("-");
        }
        let mut s = String::from_str("-");
        let digits = format_unsigned((0 - x) as u64);
        s.append(digits.as_str());
        s
    } else {
        format_unsigned(x as u64)
    }
}

/// Writes a value given in thousandths as a decimal with no trailing zeros.
pub fn format_milli(m: u32) -> (r: String)
    ensures
        r@ == milli_decimal(m as nat),
{
    let mut s = format_unsigned((m / 1000) as u64);
    let f = m % 1000;
    if f != 0 {
        proof {
            reveal_strlit(".");
        }
        s.append(".");
        s.append(digit_str((f / 100) as u64));
        if f % 100 != 0 {
            s.append(digit_str(((f / 10) % 10) as u64));
            if f % 10 != 0 {
                s.append(digit_str((f % 10) as u64));
            }
        }
    }
    s
}

pub proof fn lemma_digit_char(d: nat)
    requires
        d < 10,
    ensures
        is_digit(digit_char(d)),
        digit_value(digit_char(d)) == d,
{
}

/// Every digit of a run lies inside it, so the run reaches the end.
pub proof fn lemma_digit_run_to_end(s: Seq<char>, start: int)
    requires
        0 <= start <= s.len(),
        forall|j: int| start <= j < s.len() ==> is_digit(s[j]),
    ensures
        digit_run(s, start) == s.len(),
    decreases s.len() - start,
{
    if start < s.len() {
        lemma_digit_run_to_end(s, start + 1);
    }
}

/// The decimal text of `n` is all digits and denotes `n`.
pub proof fn lemma_decimal_digits(n: nat)
    ensures
        decimal_digits(n).len() >= 1,
        forall|j: int| 0 <= j < decimal_digits(n).len() ==> is_digit(#[trigger] decimal_digits(n)[j]),
        digits_value(decimal_digits(n)) == n,
    decreases n,
{
    if n < 10 {
        lemma_digit_char(n);
        assert(seq![digit_char(n)].drop_last() =~= Seq::<char>::empty());
        assert(digits_value(Seq::<char>::empty()) == 0);
        assert(digits_value(decimal_digits(n)) == n);
    } else {
        lemma_decimal_digits(n / 10);
        lemma_digit_char(n % 10);
        let s = decimal_digits(n);
        assert(s.drop_last() =~= decimal_digits(n / 10));
        assert(s.last() == digit_char(n % 10));
        assert(n == (n / 10) * 10 + n % 10);
        assert(digits_value(s) == digits_value(decimal_digits(n / 10)) * 10 + n % 10);
    }
}

/// Reading back the decimal text of `n` gives `n`, with no fraction.
pub proof fn lemma_decimal_round_trip(n: nat)
    ensures
        decimal_of(decimal_digits(n)) == Some((false, n, 0nat)),
        unsigned_of(decimal_digits(n)) == Some(n),
{
    let s = decimal_digits(n);
    lemma_decimal_digits(n);
    lemma_digit_run_to_end(s, 0);
    assert(is_digit(s[0]));
    assert(s.subrange(0, s.len() as int) =~= s);
}

/// An unsigned byte written in decimal reads back unchanged.
pub proof fn lemma_byte_round_trip(b: u8)
    ensures
        spec_parse_byte(decimal_digits(b as nat)) == Ok::<u8, ParseError>(b),
{
    lemma_decimal_round_trip(b as nat);
}

/// A signed byte written in decimal reads back unchanged.
pub proof fn lemma_signed_byte_round_trip(x: i8)
    ensures
        spec_parse_signed_byte(signed_decimal(x as int)) == Ok::<i8, ParseError>(x),
{
    lemma_signed_round_trip(x as int);
}

/// Reading back the signed decimal text of `x` gives its sign and magnitude.
pub proof fn lemma_signed_round_trip(x: int)
    ensures
        decimal_of(signed_decimal(x)) == Some((x < 0, if x < 0 { (-x) as nat } else { x as nat }, 0nat)),
{
    if x < 0 {
        let m = (-x) as nat;
        let d = decimal_digits(m);
        let s = signed_decimal(x);
        lemma_decimal_digits(m);
        assert(s.subrange(1, s.len() as int) =~= d);
        assert forall|j: int| 1 <= j < s.len() implies is_digit(s[j]) by {
            assert(s[j] == d[j - 1]);
        }
        lemma_digit_run_to_end(s, 1);
    } else {
        lemma_decimal_round_trip(x as nat);
    }
}

/// Reading back the text of a value in thousandths gives the value.
pub proof fn lemma_milli_round_trip(m: nat)
    ensures
        decimal_of(milli_decimal(m)) == Some((false, m / 1000, m % 1000)),
{
    let w = decimal_digits(m / 1000);
    lemma_decimal_digits(m / 1000);
    if m % 1000 == 0 {
        lemma_decimal_round_trip(m / 1000);
    } else {
        let f = m % 1000;
        let fr = fraction_digits(f);
        let s = milli_decimal(m);
        lemma_digit_char(f / 100);
        lemma_digit_char((f / 10) % 10);
        lemma_digit_char(f % 10);
        assert(s.subrange(0, w.len() as int) =~= w);
        assert forall|j: int| 0 <= j < w.len() implies is_digit(s[j]) by {
            assert(s[j] == w[j]);
        }
        assert(s[w.len() as int] == '.');
        assert(!is_digit('.'));
        lemma_digit_run_steps(s, 0, w.len() as int);
        assert(s.subrange(w.len() as int + 1, s.len() as int) =~= fr);
        assert forall|j: int| w.len() + 1 <= j < s.len() implies is_digit(s[j]) by {
            assert(s[j] == fr[j - w.len() - 1]);
        }
        lemma_digit_run_to_end(s, w.len() as int + 1);
        assert(thousandths(fr) == f);
    }
}

/// A run of digits that stops at `end` ends there.
pub proof fn lemma_digit_run_steps(s: Seq<char>, start: int, end: int)
    requires
        0 <= start <= end < s.len(),
        forall|j: int| start <= j < end ==> is_digit(s[j]),
        !is_digit(s[end]),
    ensures
        digit_run(s, start) == end,
    decreases end - start,
{
    if start < end {
        lemma_digit_run_steps(s, start + 1, end);
    }
}

} // verus!
