//! Minute:second:frame time codes and their linear sector addresses.
use vstd::prelude::*;
use vstd::arithmetic::div_mod::lemma_fundamental_div_mod_converse;
use crate::compare::{CompareOp, compare_ints, compare_u32};
use crate::text::{chars_of, pad2, parse_u8_range, parse_u8_spec, push_all, push_pad2, string_from_chars};

verus! {

/// Frames (sectors) in one second of disc time.
pub const FRAMES_PER_SECOND: u32 = 75;

/// Seconds in one minute of disc time.
pub const SECONDS_PER_MINUTE: u32 = 60;

/// Frames in one minute of disc time.
pub const FRAMES_PER_MINUTE: u32 = 4500;

/// Why text could not be read as an unsigned 8-bit number.
#[derive(Clone, Copy, Debug, PartialEq, Eq, Structural)]
pub enum ParseIntErrorKind {
    Empty,
    InvalidDigit,
    PosOverflow,
}

/// Why a time code could not be built.
#[derive(Clone, Copy, Debug, PartialEq, Eq, Structural)]
pub enum MsfIndexError {
    /// A component of a textual time code is not a number in `0..=255`.
    ParseIntError(ParseIntErrorKind),
    /// The second is 60 or more, the frame 75 or more, or the minute exceeds 255.
    OutOfRangeError,
    /// Malformed input: not three components, or a digit that is not decimal.
    InvalidMsfError,
}

/// A disc position as minute, second (below 60) and frame (below 75).
#[derive(Clone, Copy, Debug, PartialEq, Eq, Structural)]
pub struct MsfIndex {
    minute: u8,
    second: u8,
    frame: u8,
}

/// Whether a second and a frame are in range.
pub open spec fn valid_msf(s: int, f: int) -> bool {
    0 <= s < 60 && 0 <= f < 75
}

/// The linear sector address of minute `m`, second `s` and frame `f`.
pub open spec fn msf_to_lba(m: int, s: int, f: int) -> int {
    (m * 60 + s) * 75 + f
}

/// The time code of a linear sector address, if its minute fits in a byte.
pub open spec fn lba_to_msf(l: int) -> Option<(u8, u8, u8)> {
    if l / 4500 <= 255 {
        Some(((l / 4500) as u8, ((l / 75) % 60) as u8, (l % 75) as u8))
    } else {
        None
    }
}

/// The outcome of building a time code from its three components.
pub open spec fn msf_new_spec(m: u8, s: u8, f: u8) -> Result<(u8, u8, u8), MsfIndexError> {
    if valid_msf(s as int, f as int) {
        Ok((m, s, f))
    } else {
        Err(MsfIndexError::OutOfRangeError)
    }
}

/// Whether both decimal digits packed in a byte are at most 9.
pub open spec fn bcd_valid(b: u8) -> bool {
    b / 16 <= 9 && b % 16 <= 9
}

/// The number that a packed decimal byte stands for.
pub open spec fn bcd_value(b: u8) -> u8 {
    ((b / 16) * 10 + b % 16) as u8
}

/// The packed decimal byte of a number below 100.
pub open spec fn bcd_of(v: u8) -> u8 {
    ((v / 10) * 16 + v % 10) as u8
}

/// The outcome of building a time code from three packed decimal bytes.
pub open spec fn msf_from_bcd_spec(m: u8, s: u8, f: u8) -> Result<(u8, u8, u8), MsfIndexError> {
    if bcd_valid(m) && bcd_valid(s) && bcd_valid(f) {
        msf_new_spec(bcd_value(m), bcd_value(s), bcd_value(f))
    } else {
        Err(MsfIndexError::InvalidMsfError)
    }
}

/// The outcome of building a time code from a linear sector address.
pub open spec fn msf_from_lba_spec(l: int) -> Result<(u8, u8, u8), MsfIndexError> {
    match lba_to_msf(l) {
        Some(t) => Ok(t),
        None => Err(MsfIndexError::OutOfRangeError),
    }
}

/// A constructor's result seen through the view of its time code.
pub open spec fn msf_result_view(r: Result<MsfIndex, MsfIndexError>) -> Result<(u8, u8, u8), MsfIndexError> {
    match r {
        Ok(x) => Ok(x@),
        Err(e) => Err(e),
    }
}

/// Whether no character of `s[lo..hi]` is a colon.
pub open spec fn colon_free(s: Seq<char>, lo: int, hi: int) -> bool {
    forall|k: int| lo <= k < hi ==> s[k] != ':'
}

/// Whether `s` has exactly two colons, at `i` and `j`.
pub open spec fn colon_split(s: Seq<char>, i: int, j: int) -> bool {
    &&& 0 <= i < j < s.len()
    &&& s[i] == ':' && s[j] == ':'
    &&& colon_free(s, 0, i)
    &&& colon_free(s, i + 1, j)
    &&& colon_free(s, j + 1, s.len() as int)
}

/// The outcome of reading a time code written as `m:s:f` in decimal: three
/// parts that are not three colon-separated parts are malformed, then the
/// first part that is not a byte in decimal gives its error, then the range
/// of second and frame is checked.
pub open spec fn msf_parse_spec(s: Seq<char>) -> Result<(u8, u8, u8), MsfIndexError> {
    if exists|i: int, j: int| colon_split(s, i, j) {
        let (i, j) = choose|i: int, j: int| colon_split(s, i, j);
        match (
            parse_u8_spec(s.subrange(0, i)),
            parse_u8_spec(s.subrange(i + 1, j)),
            parse_u8_spec(s.subrange(j + 1, s.len() as int)),
        ) {
            (Ok(m), Ok(sec), Ok(f)) => msf_new_spec(m, sec, f),
            (Err(e), _, _) => Err(MsfIndexError::ParseIntError(e)),
            (Ok(_), Err(e), _) => Err(MsfIndexError::ParseIntError(e)),
            (Ok(_), Ok(_), Err(e)) => Err(MsfIndexError::ParseIntError(e)),
        }
    } else {
        Err(MsfIndexError::InvalidMsfError)
    }
}

/// The text of a time code: `MsfIndex(mm:ss:ff)`, each number zero-padded
/// to at least two digits.
pub open spec fn msf_text(t: (u8, u8, u8)) -> Seq<char> {
    seq!['M', 's', 'f', 'I', 'n', 'd', 'e', 'x', '('] + pad2(t.0) + seq![':'] + pad2(t.1) + seq![':']
        + pad2(t.2) + seq![')']
}

/// Two colons split a text in one way only.
proof fn lemma_colon_split_unique(s: Seq<char>, i: int, j: int, i2: int, j2: int)
    requires
        colon_split(s, i, j),
        colon_split(s, i2, j2),
    ensures
        i == i2 && j == j2,
{
    if i < i2 {
        assert(s[i] != ':');
    } else if i2 < i {
        assert(s[i2] != ':');
    }
    if j < j2 {
        assert(s[j] != ':');
    } else if j2 < j {
        assert(s[j2] != ':');
    }
}

impl View for MsfIndex {
    type V = (u8, u8, u8);

    closed spec fn view(&self) -> (u8, u8, u8) {
        (self.minute, self.second, self.frame)
    }
}

impl MsfIndex {
    #[verifier::type_invariant]
    spec fn inv(self) -> bool {
        valid_msf(self.second as int, self.frame as int)
    }

    /// The linear sector address of this time code.
    pub open spec fn lba(self) -> int {
        msf_to_lba(self@.0 as int, self@.1 as int, self@.2 as int)
    }

    /// Builds a time code; fails with `OutOfRangeError` unless `s < 60` and `f < 75`.
    pub fn new(m: u8, s: u8, f: u8) -> (r: Result<MsfIndex, MsfIndexError>)
        ensures
            msf_result_view(r) == msf_new_spec(m, s, f),
    {
        if s < 60 && f < 75 {
            Ok(MsfIndex { minute: m, second: s, frame: f })
        } else {
            Err(MsfIndexError::OutOfRangeError)
        }
    }

    /// Builds a time code from three packed decimal bytes.
    pub fn from_bcd_values(m_bcd: u8, s_bcd: u8, f_bcd: u8) -> (r: Result<MsfIndex, MsfIndexError>)
        ensures
            msf_result_view(r) == msf_from_bcd_spec(m_bcd, s_bcd, f_bcd),
    {
        let m = bcd_to_u8(m_bcd);
        let s = bcd_to_u8(s_bcd);
        let f = bcd_to_u8(f_bcd);
        match (m, s, f) {
            (Some(m), Some(s), Some(f)) => MsfIndex::new(m, s, f),
            _ => Err(MsfIndexError::InvalidMsfError),
        }
    }

    /// Builds the time code of a linear sector address; fails with
    /// `OutOfRangeError` where the minute would exceed 255.
    pub fn from_lba(sector_no: u32) -> (r: Result<MsfIndex, MsfIndexError>)
        ensures
            msf_result_view(r) == msf_from_lba_spec(sector_no as int),
    {
        let m = sector_no / FRAMES_PER_MINUTE;
        if m > 255 {
            Err(MsfIndexError::OutOfRangeError)
        } else {
            let s = (sector_no / FRAMES_PER_SECOND) % SECONDS_PER_MINUTE;
            let f = sector_no % FRAMES_PER_SECOND;
            Ok(MsfIndex { minute: m as u8, second: s as u8, frame: f as u8 })
        }
    }

    /// The linear sector address of this time code.
    pub fn to_lba(&self) -> (r: u32)
        ensures
            r as int == self.lba(),
    {
        proof {
            use_type_invariant(self);
        }
        let m = self.minute as u32;
        let s = self.second as u32;
        let f = self.frame as u32;
        assert(m * 60 + s <= 255 * 60 + 59) by (nonlinear_arith)
            requires
                m <= 255,
                s < 60,
        ;
        assert((m * 60 + s) * 75 + f <= 15359 * 75 + 74) by (nonlinear_arith)
            requires
                m * 60 + s <= 15359,
                f < 75,
        ;
        (m * SECONDS_PER_MINUTE + s) * FRAMES_PER_SECOND + f
    }

    /// The three components as packed decimal bytes; the minute must be below 100.
    pub fn to_bcd_values(&self) -> (r: (u8, u8, u8))
        requires
            self@.0 < 100,
        ensures
            r == (bcd_of(self@.0), bcd_of(self@.1), bcd_of(self@.2)),
    {
        proof {
            use_type_invariant(self);
        }
        (u8_to_bcd(self.minute), u8_to_bcd(self.second), u8_to_bcd(self.frame))
    }

    /// Reads a time code written as `m:s:f`, three numbers in decimal.
    pub fn try_from_str(s: &str) -> (r: Result<MsfIndex, MsfIndexError>)
        ensures
            msf_result_view(r) == msf_parse_spec(s@),
    {
        let v = chars_of(s);
        let n = v.len();
        let mut count: usize = 0;
        let mut p1: usize = 0;
        let mut p2: usize = 0;
        let mut p3: usize = 0;
        let mut i: usize = 0;
        while i < n && count < 3
            invariant
                n == v@.len(),
                i <= n,
                count <= 3,
                count == 0 ==> colon_free(v@, 0, i as int),
                count >= 1 ==> p1 < i && v@[p1 as int] == ':' && colon_free(v@, 0, p1 as int),
                count == 1 ==> colon_free(v@, p1 + 1, i as int),
                count >= 2 ==> p1 < p2 < i && v@[p2 as int] == ':' && colon_free(v@, p1 + 1, p2 as int),
                count == 2 ==> colon_free(v@, p2 + 1, i as int),
                count == 3 ==> p2 < p3 < i && v@[p3 as int] == ':',
            decreases n - i,
        {
            if v[i] == ':' {
                if count == 0 {
                    p1 = i;
                } else if count == 1 {
                    p2 = i;
                } else {
                    p3 = i;
                }
                count = count + 1;
            }
            i = i + 1;
        }
        if count != 2 || i != n {
            proof {
                assert forall|a: int, b: int| !colon_split(v@, a, b) by {
                    if colon_split(v@, a, b) {
                        if count == 3 {
                            assert(p1 == a || p1 == b);
                            assert(p2 == a || p2 == b);
                            assert(p3 == a || p3 == b);
                        } else if count == 1 {
                            assert(a == p1);
                            assert(b == p1);
                        } else if count == 0 {
                            assert(v@[a] != ':');
                        }
                    }
                }
            }
            return Err(MsfIndexError::InvalidMsfError);
        }
        proof {
            assert(colon_split(v@, p1 as int, p2 as int));
            let (a, b) = choose|a: int, b: int| colon_split(v@, a, b);
            lemma_colon_split_unique(v@, a, b, p1 as int, p2 as int);
        }
        let m = match parse_u8_range(&v, 0, p1) {
            Ok(x) => x,
            Err(e) => return Err(MsfIndexError::ParseIntError(e)),
        };
        let sec = match parse_u8_range(&v, p1 + 1, p2) {
            Ok(x) => x,
            Err(e) => return Err(MsfIndexError::ParseIntError(e)),
        };
        let f = match parse_u8_range(&v, p2 + 1, n) {
            Ok(x) => x,
            Err(e) => return Err(MsfIndexError::ParseIntError(e)),
        };
        MsfIndex::new(m, sec, f)
    }

    /// The text of this time code, `MsfIndex(mm:ss:ff)`.
    pub fn to_text(&self) -> (r: String)
        ensures
            r@ == msf_text(self@),
    {
        let mut out: Vec<char> = Vec::new();
        proof {
            reveal_strlit("MsfIndex(");
        }
        push_all(&mut out, "MsfIndex(");
        push_pad2(&mut out, self.minute);
        out.push(':');
        push_pad2(&mut out, self.second);
        out.push(':');
        push_pad2(&mut out, self.frame);
        out.push(')');
        assert(out@ =~= msf_text(self@));
        string_from_chars(out)
    }

    /// The minute.
    pub fn minute(&self) -> (r: u8)
        ensures
            r == self@.0,
    {
        self.minute
    }

    /// The second, below 60.
    pub fn second(&self) -> (r: u8)
        ensures
            r == self@.1,
            r < 60,
    {
        proof {
            use_type_invariant(self);
        }
        self.second
    }

    /// The frame, below 75.
    pub fn frame(&self) -> (r: u8)
        ensures
            r == self@.2,
            r < 75,
    {
        proof {
            use_type_invariant(self);
        }
        self.frame
    }

    /// Compares two time codes by their linear sector addresses.
    pub fn richcmp(&self, other: &MsfIndex, op: CompareOp) -> (r: bool)
        ensures
            r == compare_ints(op, self.lba(), other.lba()),
    {
        compare_u32(op, self.to_lba(), other.to_lba())
    }
}

/// The number that a packed decimal byte stands for, if both digits are decimal.
fn bcd_to_u8(b: u8) -> (r: Option<u8>)
    ensures
        r == (if bcd_valid(b) { Some(bcd_value(b)) } else { None }),
{
    let hi = b / 16;
    let lo = b % 16;
    if hi <= 9 && lo <= 9 {
        Some(hi * 10 + lo)
    } else {
        None
    }
}

/// The packed decimal byte of a number below 100.
fn u8_to_bcd(v: u8) -> (r: u8)
    requires
        v < 100,
    ensures
        r == bcd_of(v),
{
    (v / 10) * 16 + v % 10
}

/// Converting a valid time code to its linear sector address and back gives it again.
pub proof fn lemma_lba_round_trip(m: u8, s: u8, f: u8)
    requires
        valid_msf(s as int, f as int),
    ensures
        msf_new_spec(m, s, f) == Ok::<(u8, u8, u8), MsfIndexError>((m, s, f)),
        0 <= msf_to_lba(m as int, s as int, f as int) <= u32::MAX,
        msf_from_lba_spec(msf_to_lba(m as int, s as int, f as int)) == Ok::<(u8, u8, u8), MsfIndexError>((m, s, f)),
{
    let l = msf_to_lba(m as int, s as int, f as int);
    let q = m as int * 60 + s as int;
    assert(l == q * 75 + f);
    lemma_fundamental_div_mod_converse(l, 75, q, f as int);
    lemma_fundamental_div_mod_converse(q, 60, m as int, s as int);
    assert(l == m as int * 4500 + (s as int * 75 + f as int)) by (nonlinear_arith)
        requires
            l == (m as int * 60 + s as int) * 75 + f as int,
    ;
    lemma_fundamental_div_mod_converse(l, 4500, m as int, s as int * 75 + f as int);
    assert(l <= u32::MAX) by (nonlinear_arith)
        requires
            l == m as int * 4500 + (s as int * 75 + f as int),
            m <= 255,
            s < 60,
            f < 75,
    ;
}

/// Whether time code `a` comes before `b`, comparing minute, then second, then frame.
pub open spec fn msf_lex_less(a: (u8, u8, u8), b: (u8, u8, u8)) -> bool {
    a.0 < b.0 || (a.0 == b.0 && (a.1 < b.1 || (a.1 == b.1 && a.2 < b.2)))
}

/// The position of a valid time code within its minute.
proof fn lemma_within_minute(m: u8, s: u8, f: u8)
    requires
        valid_msf(s as int, f as int),
    ensures
        msf_to_lba(m as int, s as int, f as int) == m as int * 4500 + (s as int * 75 + f as int),
        0 <= s as int * 75 + (f as int) < 4500,
{
    assert(msf_to_lba(m as int, s as int, f as int) == m as int * 4500 + (s as int * 75 + f as int))
        by (nonlinear_arith);
    assert(s as int * 75 + (f as int) < 4500) by (nonlinear_arith)
        requires
            s < 60,
            f < 75,
    ;
}

/// Packing a number below 100 as two decimal digits and reading it back
/// gives the number again, so a time code with a minute below 100 survives
/// `to_bcd_values` followed by `from_bcd_values`.
pub proof fn lemma_bcd_round_trip(v: u8)
    requires
        v < 100,
    ensures
        bcd_valid(bcd_of(v)),
        bcd_value(bcd_of(v)) == v,
{
    let b = (v / 10) * 16 + v % 10;
    assert(b < 256);
    lemma_fundamental_div_mod_converse(b as int, 16, (v / 10) as int, (v % 10) as int);
}

/// Time codes in range are ordered by minute, then second, then frame exactly
/// as their linear sector addresses are ordered, and equal addresses mean
/// equal time codes.
pub proof fn lemma_order_follows_lba(a: (u8, u8, u8), b: (u8, u8, u8))
    requires
        valid_msf(a.1 as int, a.2 as int),
        valid_msf(b.1 as int, b.2 as int),
    ensures
        msf_lex_less(a, b) <==> msf_to_lba(a.0 as int, a.1 as int, (a.2 as int)) < msf_to_lba(b.0 as int, b.1 as int, b.2 as int),
        a == b <==> msf_to_lba(a.0 as int, a.1 as int, a.2 as int) == msf_to_lba(b.0 as int, b.1 as int, b.2 as int),
{
    lemma_within_minute(a.0, a.1, a.2);
    lemma_within_minute(b.0, b.1, b.2);
    let ra = a.1 as int * 75 + a.2 as int;
    let rb = b.1 as int * 75 + b.2 as int;
    assert(a.0 < b.0 ==> a.0 as int * 4500 + ra < b.0 as int * 4500 + rb) by (nonlinear_arith)
        requires
            0 <= ra < 4500,
            0 <= rb < 4500,
    ;
    assert(a.0 > b.0 ==> a.0 as int * 4500 + ra > b.0 as int * 4500 + rb) by (nonlinear_arith)
        requires
            0 <= ra < 4500,
            0 <= rb < 4500,
    ;
    assert(a.1 < b.1 ==> ra < rb) by (nonlinear_arith)
        requires
            ra == a.1 as int * 75 + a.2 as int,
            rb == b.1 as int * 75 + b.2 as int,
            a.2 < 75,
            b.2 < 75,
    ;
    assert(a.1 > b.1 ==> ra > rb) by (nonlinear_arith)
        requires
            ra == a.1 as int * 75 + a.2 as int,
            rb == b.1 as int * 75 + b.2 as int,
            a.2 < 75,
            b.2 < 75,
    ;
}

} // verus!
