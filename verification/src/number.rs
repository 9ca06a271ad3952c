//! Numbers as text: decimal and hexadecimal digits, and ASCII letter case.
use vstd::prelude::*;
use vstd::string::*;
use vstd::utf8::is_ascii_chars;

use crate::text::to_chars;

verus! {

// ---------------------------------------------------------------------------
// Writing decimals
// ---------------------------------------------------------------------------

/// The decimal digit for `d`.
pub open spec fn digit(d: nat) -> char {
    (48 + d) as char
}

/// `n` in decimal, without leading zeros.
pub open spec fn decimal(n: nat) -> Seq<char>
    decreases n,
{
    if n < 10 {
        seq![digit(n)]
    } else {
        decimal(n / 10).push(digit(n % 10))
    }
}

/// `z` in decimal, with a minus sign in front of a negative number.
pub open spec fn decimal_int(z: int) -> Seq<char> {
    if z < 0 {
        seq!['-'] + decimal((-z) as nat)
    } else {
        decimal(z as nat)
    }
}

/// The decimal digit for `d`.
pub fn digit_char(d: u8) -> (r: char)
    requires
        d < 10,
    ensures
        r == digit(d as nat),
{
    (48u8 + d) as char
}

/// `n` in decimal.
pub fn show(n: u64) -> (r: String)
    ensures
        r@ == decimal(n as nat),
    decreases n,
{
    if n < 10 {
        let mut out: String = String::new();
        out.push(digit_char(n as u8));
        assert(out@ =~= seq![digit(n as nat)]);
        out
    } else {
        let mut out: String = show(n / 10);
        out.push(digit_char((n % 10) as u8));
        out
    }
}

/// `n` in decimal.
pub fn show_wide(n: u128) -> (r: String)
    ensures
        r@ == decimal(n as nat),
    decreases n,
{
    let mut out: String = if n < 10 {
        String::new()
    } else {
        show_wide(n / 10)
    };
    out.push(digit_char((n % 10) as u8));
    assert(n < 10 ==> out@ =~= seq![digit(n as nat)]);
    out
}

/// `z` in decimal.
pub fn show_signed(z: i64) -> (r: String)
    ensures
        r@ == decimal_int(z as int),
{
    if z < 0 {
        let m: u64 = if z == i64::MIN {
            9223372036854775808u64
        } else {
            (-z) as u64
        };
        let mut out: String = String::new();
        out.push('-');
        let tail: String = show(m);
        out.push_str(tail.as_str());
        assert(out@ =~= seq!['-'] + decimal(m as nat));
        out
    } else {
        show(z as u64)
    }
}

/// `n` in decimal, filled up with zeros in front to `2` digits.
pub open spec fn two_digits(n: nat) -> Seq<char> {
    if n < 10 {
        seq!['0'] + decimal(n)
    } else {
        decimal(n)
    }
}

/// `n` in decimal, with at least two digits.
pub fn show_two(n: u64) -> (r: String)
    ensures
        r@ == two_digits(n as nat),
{
    let body: String = show(n);
    if n < 10 {
        let mut out: String = String::new();
        out.push('0');
        out.push_str(body.as_str());
        assert(out@ =~= seq!['0'] + decimal(n as nat));
        out
    } else {
        body
    }
}

// ---------------------------------------------------------------------------
// Reading decimals
// ---------------------------------------------------------------------------

/// `c` is a decimal digit.
pub open spec fn is_digit(c: char) -> bool {
    '0' <= c <= '9'
}

/// `s` holds decimal digits only.
pub open spec fn all_digits(s: Seq<char>) -> bool {
    forall|i: int| 0 <= i < s.len() ==> is_digit(#[trigger] s[i])
}

/// The number that the digits of `s` stand for.
pub open spec fn digits_value(s: Seq<char>) -> nat
    decreases s.len(),
{
    if s.len() == 0 {
        0
    } else {
        digits_value(s.drop_last()) * 10 + ((s.last() as int - 48) as nat)
    }
}

/// `s` without a plus sign in front.
pub open spec fn without_plus(s: Seq<char>) -> Seq<char> {
    if s.len() > 0 && s[0] == '+' {
        s.skip(1)
    } else {
        s
    }
}

/// The number no larger than `max` that `s` is a decimal for: digits, at least
/// one, with an optional plus sign in front.
pub open spec fn parsed(s: Seq<char>, max: int) -> Option<nat> {
    let d = without_plus(s);
    if d.len() > 0 && all_digits(d) && digits_value(d) <= max {
        Some(digits_value(d))
    } else {
        None
    }
}

/// The number that `parsed` gives as an `Option` of a machine integer.
pub open spec fn same_number(r: Option<u64>, p: Option<nat>) -> bool {
    match (r, p) {
        (Some(a), Some(b)) => a == b,
        (None, None) => true,
        _ => false,
    }
}

proof fn digits_value_grows(s: Seq<char>, n: int)
    requires
        0 <= n <= s.len(),
        all_digits(s),
    ensures
        digits_value(s.take(n)) <= digits_value(s),
    decreases s.len() - n,
{
    if n < s.len() {
        digits_value_grows(s, n + 1);
        assert(s.take(n + 1).drop_last() == s.take(n));
    } else {
        assert(s.take(n) == s);
    }
}

/// The number of the digits `v[from..]`, if they are digits, at least one, and
/// stand for a number no larger than `max`.
fn read_digits(v: &Vec<char>, from: usize, max: u64) -> (r: Option<u64>)
    requires
        from <= v@.len(),
    ensures
        ({
            let d = v@.skip(from as int);
            if d.len() > 0 && all_digits(d) && digits_value(d) <= max {
                r == Some(digits_value(d) as u64)
            } else {
                r is None
            }
        }),
{
    let ghost d = v@.skip(from as int);
    if from == v.len() {
        return None;
    }
    let mut i: usize = from;
    let mut n: u64 = 0;
    assert(d.take(0).len() == 0);
    while i < v.len()
        invariant
            from <= i <= v@.len(),
            d == v@.skip(from as int),
            n == digits_value(d.take(i - from)),
            n <= max,
            forall|j: int| 0 <= j < i - from ==> is_digit(#[trigger] d[j]),
        decreases v@.len() - i,
    {
        let c: char = v[i];
        assert(d[i - from] == c);
        if !('0' <= c && c <= '9') {
            return None;
        }
        let k: u64 = (c as u32 - 48) as u64;
        proof {
            assert(d.take(i - from + 1).drop_last() == d.take(i - from));
            assert(digits_value(d.take(i - from + 1)) == n * 10 + k);
            if all_digits(d) {
                digits_value_grows(d, i - from + 1);
            }
        }
        if n > max / 10 {
            assert(n * 10 > max);
            return None;
        }
        if k > max - n * 10 {
            return None;
        }
        n = n * 10 + k;
        i += 1;
    }
    assert(d.take(i - from) == d);
    Some(n)
}

/// The number no larger than `max` that `s` is a decimal for.
pub fn parse_up_to(s: &str, max: u64) -> (r: Option<u64>)
    ensures
        same_number(r, parsed(s@, max as int)),
{
    let v: Vec<char> = to_chars(s);
    if v.len() > 0 && v[0] == '+' {
        read_digits(&v, 1, max)
    } else {
        assert(v@.skip(0) == v@);
        read_digits(&v, 0, max)
    }
}

/// The `u16` that `s` is a decimal for.
pub fn parse_u16(s: &str) -> (r: Option<u16>)
    ensures
        r is Some <==> parsed(s@, 0xFFFF) is Some,
        r matches Some(n) ==> parsed(s@, 0xFFFF) == Some(n as nat),
{
    match parse_up_to(s, 0xFFFF) {
        Some(n) => Some(n as u16),
        None => None,
    }
}

/// The `u32` that `s` is a decimal for.
pub fn parse_u32(s: &str) -> (r: Option<u32>)
    ensures
        r is Some <==> parsed(s@, 0xFFFF_FFFF) is Some,
        r matches Some(n) ==> parsed(s@, 0xFFFF_FFFF) == Some(n as nat),
{
    match parse_up_to(s, 0xFFFF_FFFF) {
        Some(n) => Some(n as u32),
        None => None,
    }
}

/// The `u64` that `s` is a decimal for.
pub fn parse_u64(s: &str) -> (r: Option<u64>)
    ensures
        r is Some <==> parsed(s@, u64::MAX as int) is Some,
        r matches Some(n) ==> parsed(s@, u64::MAX as int) == Some(n as nat),
{
    parse_up_to(s, u64::MAX)
}

/// The number between `-2^63` and `2^63 - 1` that `s` is a decimal for: digits,
/// at least one, with an optional sign in front.
pub open spec fn parsed_signed(s: Seq<char>) -> Option<int> {
    if s.len() > 0 && s[0] == '-' {
        let d = s.skip(1);
        if d.len() > 0 && all_digits(d) && digits_value(d) <= 0x8000_0000_0000_0000 {
            Some(-(digits_value(d) as int))
        } else {
            None
        }
    } else {
        match parsed(s, i64::MAX as int) {
            Some(n) => Some(n as int),
            None => None,
        }
    }
}

/// The `i64` that `s` is a decimal for.
pub fn parse_i64(s: &str) -> (r: Option<i64>)
    ensures
        r is Some <==> parsed_signed(s@) is Some,
        r matches Some(n) ==> parsed_signed(s@) == Some(n as int),
{
    let v: Vec<char> = to_chars(s);
    if v.len() > 0 && v[0] == '-' {
        match read_digits(&v, 1, 0x8000_0000_0000_0000) {
            Some(m) => if m == 0x8000_0000_0000_0000 {
                Some(i64::MIN)
            } else {
                Some(-(m as i64))
            },
            None => None,
        }
    } else {
        match parse_up_to(s, 0x7FFF_FFFF_FFFF_FFFF) {
            Some(n) => Some(n as i64),
            None => None,
        }
    }
}

proof fn decimal_facts(n: nat)
    ensures
        decimal(n).len() > 0,
        all_digits(decimal(n)),
        digits_value(decimal(n)) == n,
    decreases n,
{
    let s = decimal(n);
    if n < 10 {
        assert(s.drop_last().len() == 0);
        assert(digits_value(s.drop_last()) == 0);
    } else {
        decimal_facts(n / 10);
        assert(s.drop_last() == decimal(n / 10));
    }
}

/// Reading back a written number gives the number.
pub proof fn parsed_decimal(n: nat, max: int)
    requires
        n <= max,
    ensures
        parsed(decimal(n), max) == Some(n),
{
    decimal_facts(n);
    assert(is_digit(decimal(n)[0]));
}

/// A written number is made of digits, at least one.
pub proof fn decimal_is_digits(n: nat)
    ensures
        decimal(n).len() > 0,
        all_digits(decimal(n)),
{
    decimal_facts(n);
}

// ---------------------------------------------------------------------------
// Hexadecimal
// ---------------------------------------------------------------------------

/// The value of a hexadecimal digit, in either case.
pub open spec fn hex_value(c: int) -> Option<int> {
    if 48 <= c <= 57 {
        Some(c - 48)
    } else if 97 <= c <= 102 {
        Some(c - 87)
    } else if 65 <= c <= 70 {
        Some(c - 55)
    } else {
        None
    }
}

/// The hexadecimal digit for `d`, in upper case.
pub open spec fn upper_hex(d: int) -> char {
    if d < 10 {
        (48 + d) as char
    } else {
        (55 + d) as char
    }
}

/// The hexadecimal digit for `d`, in lower case.
pub open spec fn lower_hex(d: int) -> char {
    if d < 10 {
        (48 + d) as char
    } else {
        (87 + d) as char
    }
}

/// The upper-case hexadecimal digit for `d`.
pub fn upper_hex_char(d: u8) -> (r: char)
    requires
        d < 16,
    ensures
        r == upper_hex(d as int),
{
    if d < 10 {
        (48u8 + d) as char
    } else {
        (55u8 + d) as char
    }
}

/// The lower-case hexadecimal digit for `d`.
pub fn lower_hex_char(d: u8) -> (r: char)
    requires
        d < 16,
    ensures
        r == lower_hex(d as int),
{
    if d < 10 {
        (48u8 + d) as char
    } else {
        (87u8 + d) as char
    }
}

// ---------------------------------------------------------------------------
// ASCII letters
// ---------------------------------------------------------------------------

/// `c` with an ASCII upper-case letter turned into lower case.
pub open spec fn lower_char(c: char) -> char {
    if 'A' <= c <= 'Z' {
        (c as int + 32) as char
    } else {
        c
    }
}

/// `s` with its ASCII upper-case letters turned into lower case.
pub open spec fn ascii_lower(s: Seq<char>) -> Seq<char> {
    Seq::new(s.len(), |i: int| lower_char(s[i]))
}

/// `c` in ASCII lower case.
pub fn to_lower_char(c: char) -> (r: char)
    ensures
        r == lower_char(c),
{
    if 'A' <= c && c <= 'Z' {
        (c as u8 + 32) as char
    } else {
        c
    }
}

/// `s` in ASCII lower case.
pub fn to_ascii_lower(s: &str) -> (r: String)
    ensures
        r@ == ascii_lower(s@),
{
    let v: Vec<char> = to_chars(s);
    let mut out: String = String::new();
    let mut i: usize = 0;
    while i < v.len()
        invariant
            i <= v@.len(),
            v@ == s@,
            out@ == ascii_lower(s@).take(i as int),
        decreases v@.len() - i,
    {
        out.push(to_lower_char(v[i]));
        i += 1;
        assert(ascii_lower(s@).take(i as int) == ascii_lower(s@).take(i - 1).push(
            lower_char(v@[i - 1]),
        ));
    }
    assert(ascii_lower(s@).take(i as int) == ascii_lower(s@));
    out
}

/// What `str::to_lowercase` returns on a text with characters beyond ASCII.
pub uninterp spec fn lowercase_form(s: Seq<char>) -> Seq<char>;

/// `str::to_lowercase`: the lowercase form of `s`. On ASCII text only the
/// letters `A` to `Z` change, each to its small letter; on other text the form
/// is a function of the text alone, as the mapping knows no locale, and what it
/// is on given characters is left unsaid.
#[verifier::external_body]
fn std_lowercase(s: &str) -> (r: String)
    ensures
        is_ascii_chars(s@) ==> r@ == ascii_lower(s@),
        !is_ascii_chars(s@) ==> r@ == lowercase_form(s@),
{
    s.to_lowercase()
}

/// `s` in Unicode lower case.
pub open spec fn lowered(s: Seq<char>) -> Seq<char> {
    if is_ascii_chars(s) {
        ascii_lower(s)
    } else {
        lowercase_form(s)
    }
}

/// `s` in Unicode lower case.
pub fn to_lower(s: &str) -> (r: String)
    ensures
        r@ == lowered(s@),
{
    std_lowercase(s)
}

/// `a` and `b` differ at most in the case of ASCII letters.
pub open spec fn same_ignoring_case(a: Seq<char>, b: Seq<char>) -> bool {
    ascii_lower(a) == ascii_lower(b)
}

/// `c` is an ASCII letter or digit.
pub open spec fn is_alnum(c: char) -> bool {
    'a' <= c <= 'z' || 'A' <= c <= 'Z' || '0' <= c <= '9'
}

/// Whether `c` is an ASCII letter or digit.
pub fn alnum(c: char) -> (r: bool)
    ensures
        r == is_alnum(c),
{
    ('a' <= c && c <= 'z') || ('A' <= c && c <= 'Z') || ('0' <= c && c <= '9')
}

// ---------------------------------------------------------------------------
// Rates
// ---------------------------------------------------------------------------

/// `num / den` rounded to the nearest whole number, halves up.
pub open spec fn rounded_ratio(num: nat, den: nat) -> nat
    recommends
        den > 0,
{
    (2 * num + den) / (2 * den)
}

/// `num / den` rounded to the nearest whole number, halves up.
pub fn round_ratio(num: u32, den: u32) -> (r: u32)
    requires
        den > 0,
    ensures
        r == rounded_ratio(num as nat, den as nat),
{
    let n: u64 = num as u64;
    let d: u64 = den as u64;
    let q: u64 = (2 * n + d) / (2 * d);
    proof {
        assert(q <= 0xFFFF_FFFF) by (nonlinear_arith)
            requires
                q == (2 * n + d) / (2 * d),
                n <= 0xFFFF_FFFF,
                d > 0,
        ;
    }
    q as u32
}

} // verus!
