//! Decimal text: reading unsigned bytes and writing zero-padded numbers.
use vstd::prelude::*;
use crate::msf::ParseIntErrorKind;

verus! {

/// Whether `c` is one of the ten decimal digits.
pub open spec fn is_dec_digit(c: char) -> bool {
    '0' <= c && c <= '9'
}

/// The value of a decimal digit character.
pub open spec fn digit_value(c: char) -> int {
    (c as u32) as int - 48
}

/// The character of a decimal digit `d` in `0..10`.
pub open spec fn digit_char(d: int) -> char {
    (d + 48) as char
}

/// Reads the digits of `d` after the value `acc` read so far, failing at the
/// first character that is not a digit or that takes the value past 255.
pub open spec fn parse_digits(d: Seq<char>, acc: int) -> Result<u8, ParseIntErrorKind>
    decreases d.len(),
{
    if d.len() == 0 {
        Ok(acc as u8)
    } else if !is_dec_digit(d[0]) {
        Err(ParseIntErrorKind::InvalidDigit)
    } else if acc * 10 + digit_value(d[0]) > 255 {
        Err(ParseIntErrorKind::PosOverflow)
    } else {
        parse_digits(d.drop_first(), acc * 10 + digit_value(d[0]))
    }
}

/// Reads `s` as an unsigned byte in decimal, with an optional leading `+`.
pub open spec fn parse_u8_spec(s: Seq<char>) -> Result<u8, ParseIntErrorKind> {
    if s.len() == 0 {
        Err(ParseIntErrorKind::Empty)
    } else if s[0] == '+' && s.len() > 1 {
        parse_digits(s.drop_first(), 0)
    } else {
        parse_digits(s, 0)
    }
}

/// A byte in decimal, padded with a leading zero to at least two digits.
pub open spec fn pad2(n: u8) -> Seq<char> {
    if n < 10 {
        seq!['0', digit_char(n as int)]
    } else if n < 100 {
        seq![digit_char(n as int / 10), digit_char(n as int % 10)]
    } else {
        seq![digit_char(n as int / 100), digit_char((n as int / 10) % 10), digit_char(n as int % 10)]
    }
}

/// The characters of `s`, in order.
pub fn chars_of(s: &str) -> (v: Vec<char>)
    ensures
        v@ == s@,
{
    let n = s.unicode_len();
    let mut v: Vec<char> = Vec::new();
    let mut i: usize = 0;
    while i < n
        invariant
            n == s@.len(),
            i <= n,
            v@ == s@.subrange(0, i as int),
        decreases n - i,
    {
        v.push(s.get_char(i));
        i = i + 1;
    }
    assert(v@ =~= s@);
    v
}

/// Reads `v[lo..hi]` as an unsigned byte in decimal.
pub fn parse_u8_range(v: &Vec<char>, lo: usize, hi: usize) -> (r: Result<u8, ParseIntErrorKind>)
    requires
        lo <= hi <= v@.len(),
    ensures
        r == parse_u8_spec(v@.subrange(lo as int, hi as int)),
{
    let ghost s = v@.subrange(lo as int, hi as int);
    if lo == hi {
        return Err(ParseIntErrorKind::Empty);
    }
    let mut k: usize = lo;
    if v[lo] == '+' && hi - lo > 1 {
        k = lo + 1;
        assert(s.drop_first() =~= v@.subrange(k as int, hi as int));
    } else {
        assert(s =~= v@.subrange(k as int, hi as int));
    }
    let mut acc: u32 = 0;
    while k < hi
        invariant
            lo <= k <= hi,
            hi <= v@.len(),
            acc <= 255,
            s == v@.subrange(lo as int, hi as int),
            parse_u8_spec(s) == parse_digits(v@.subrange(k as int, hi as int), acc as int),
        decreases hi - k,
    {
        let ghost rest = v@.subrange(k as int, hi as int);
        assert(rest[0] == v@[k as int]);
        assert(rest.drop_first() =~= v@.subrange(k + 1, hi as int));
        let c = v[k];
        assert(rest.len() > 0);
        if !('0' <= c && c <= '9') {
            assert(!is_dec_digit(rest[0]));
            return Err(ParseIntErrorKind::InvalidDigit);
        }
        let d = (c as u32) - 48;
        assert(d as int == digit_value(rest[0]));
        if acc * 10 + d > 255 {
            return Err(ParseIntErrorKind::PosOverflow);
        }
        acc = acc * 10 + d;
        k = k + 1;
    }
    Ok(acc as u8)
}

/// The decimal digit character of `d`.
fn digit_to_char(d: u8) -> (c: char)
    requires
        d < 10,
    ensures
        c == digit_char(d as int),
{
    (d + 48) as char
}

/// Appends `n` in decimal, padded with a leading zero to at least two digits.
pub fn push_pad2(out: &mut Vec<char>, n: u8)
    ensures
        final(out)@ == old(out)@ + pad2(n),
{
    if n < 10 {
        out.push('0');
        out.push(digit_to_char(n));
    } else if n < 100 {
        out.push(digit_to_char(n / 10));
        out.push(digit_to_char(n % 10));
    } else {
        out.push(digit_to_char(n / 100));
        out.push(digit_to_char((n / 10) % 10));
        out.push(digit_to_char(n % 10));
    }
    assert(final(out)@ =~= old(out)@ + pad2(n));
}

/// Appends the characters of `s`.
pub fn push_all(out: &mut Vec<char>, s: &str)
    ensures
        final(out)@ == old(out)@ + s@,
{
    let chars = chars_of(s);
    let mut i: usize = 0;
    while i < chars.len()
        invariant
            i <= chars@.len(),
            chars@ == s@,
            out@ == old(out)@ + s@.subrange(0, i as int),
        decreases chars@.len() - i,
    {
        out.push(chars[i]);
        i = i + 1;
        assert(out@ =~= old(out)@ + s@.subrange(0, i as int));
    }
    assert(s@.subrange(0, i as int) =~= s@);
}

/// Relies on `String`'s `FromIterator<char>`: the string holds the given
/// characters in order.
#[verifier::external_body]
pub(crate) fn string_from_chars(v: Vec<char>) -> (r: String)
    ensures
        r@ == v@,
{
    v.into_iter().collect()
}

} // verus!
