use vstd::prelude::*;

verus! {

pub open spec fn is_digit(c: char) -> bool {
    '0' <= c && c <= '9'
}

pub open spec fn all_digits(s: Seq<char>) -> bool {
    forall|i: int| 0 <= i < s.len() ==> is_digit(#[trigger] s[i])
}

/// The number a string of decimal digits writes.
pub open spec fn digits_value(s: Seq<char>) -> nat
    decreases s.len(),
{
    if s.len() == 0 {
        0
    } else {
        digits_value(s.drop_last()) * 10 + (s.last() as nat - '0' as nat) as nat
    }
}

/// A nonempty run of decimal digits, read as a number.
pub open spec fn unsigned_value(s: Seq<char>) -> Option<nat> {
    if s.len() > 0 && all_digits(s) {
        Some(digits_value(s))
    } else {
        None
    }
}

/// An integer written as an optional sign and then decimal digits, the form
/// `str::parse` accepts for signed integers.
pub open spec fn signed_value(s: Seq<char>) -> Option<int> {
    if s.len() > 0 && s[0] == '-' {
        match unsigned_value(s.drop_first()) {
            Some(v) => Some(-v),
            None => None,
        }
    } else if s.len() > 0 && s[0] == '+' {
        match unsigned_value(s.drop_first()) {
            Some(v) => Some(v as int),
            None => None,
        }
    } else {
        match unsigned_value(s) {
            Some(v) => Some(v as int),
            None => None,
        }
    }
}

/// A natural number written as an optional `+` and then decimal digits, the
/// form `str::parse` accepts for unsigned integers.
pub open spec fn plus_value(s: Seq<char>) -> Option<nat> {
    if s.len() > 0 && s[0] == '+' {
        unsigned_value(s.drop_first())
    } else {
        unsigned_value(s)
    }
}

/// What parsing `s` as an `i32` gives: the number it writes, if that fits.
pub open spec fn i32_of(s: Seq<char>) -> Option<i32> {
    match signed_value(s) {
        Some(v) => if i32::MIN <= v && v <= i32::MAX {
            Some(v as i32)
        } else {
            None
        },
        None => None,
    }
}

/// What parsing `s` as a `u8` gives: the number it writes, if that fits.
pub open spec fn u8_of(s: Seq<char>) -> Option<u8> {
    match plus_value(s) {
        Some(v) => if v <= u8::MAX {
            Some(v as u8)
        } else {
            None
        },
        None => None,
    }
}

/// Above every value that `i32` or `u8` can hold, in magnitude.
const SCAN_CAP: u64 = 0x1_0000_0000;

spec fn min_cap(v: nat) -> nat {
    if v < SCAN_CAP {
        v
    } else {
        SCAN_CAP as nat
    }
}

/// Reads the digits of `s` from `start` on. `None` unless that tail is a
/// nonempty run of digits; otherwise its value, cut at `SCAN_CAP`.
fn scan_digits(s: &str, start: usize) -> (r: Option<u64>)
    requires
        start <= s@.len(),
    ensures
        r == (match unsigned_value(s@.subrange(start as int, s@.len() as int)) {
            Some(v) => Some(min_cap(v) as u64),
            None => None,
        }),
{
    let n = s.unicode_len();
    if start >= n {
        return None;
    }
    let mut acc: u64 = 0;
    let mut i: usize = start;
    while i < n
        invariant
            n == s@.len(),
            start <= i <= n,
            all_digits(s@.subrange(start as int, i as int)),
            acc == min_cap(digits_value(s@.subrange(start as int, i as int))),
        decreases n - i,
    {
        let c = s.get_char(i);
        let ghost pre = s@.subrange(start as int, i as int);
        let ghost next = s@.subrange(start as int, i + 1);
        assert(next.drop_last() =~= pre);
        if !('0' <= c && c <= '9') {
            assert(next.last() == c);
            assert(!all_digits(s@.subrange(start as int, n as int))) by {
                assert(s@.subrange(start as int, n as int)[i - start] == c);
            }
            return None;
        }
        let d = (c as u32 - '0' as u32) as u64;
        assert forall|j: int| 0 <= j < next.len() implies is_digit(#[trigger] next[j]) by {
            if j < pre.len() {
                assert(next[j] == pre[j]);
            }
        }
        let ghost v = digits_value(pre);
        assert(digits_value(next) == v * 10 + d);
        if acc < SCAN_CAP {
            assert(acc * 10 + d < 0x1_0000_0000_0000) by (nonlinear_arith)
                requires acc < SCAN_CAP, d <= 9;
            let t = acc * 10 + d;
            acc = if t < SCAN_CAP { t } else { SCAN_CAP };
        } else {
            assert(v * 10 + d >= SCAN_CAP) by (nonlinear_arith)
                requires v >= SCAN_CAP;
        }
        i = i + 1;
    }
    assert(s@.subrange(start as int, n as int) =~= s@.subrange(start as int, i as int));
    Some(acc)
}

/// Parses `s` as `str::parse::<i32>` does: an optional sign, then digits,
/// and a value that fits.
pub fn parse_i32(s: &str) -> (r: Option<i32>)
    ensures
        r == i32_of(s@),
{
    let n = s.unicode_len();
    if n == 0 {
        return None;
    }
    let c = s.get_char(0);
    let start: usize = if c == '-' || c == '+' { 1 } else { 0 };
    assert(s@.subrange(start as int, s@.len() as int) =~= if start == 1 { s@.drop_first() } else { s@ });
    match scan_digits(s, start) {
        None => None,
        Some(m) => {
            if c == '-' {
                if m <= 0x8000_0000 {
                    Some((0 - (m as i64)) as i32)
                } else {
                    None
                }
            } else {
                if m <= 0x7fff_ffff {
                    Some(m as i32)
                } else {
                    None
                }
            }
        },
    }
}

/// Parses `s` as `str::parse::<u8>` does: an optional `+`, then digits, and
/// a value that fits.
pub fn parse_u8(s: &str) -> (r: Option<u8>)
    ensures
        r == u8_of(s@),
{
    let n = s.unicode_len();
    if n == 0 {
        return None;
    }
    let c = s.get_char(0);
    let start: usize = if c == '+' { 1 } else { 0 };
    assert(s@.subrange(start as int, s@.len() as int) =~= if start == 1 { s@.drop_first() } else { s@ });
    match scan_digits(s, start) {
        None => None,
        Some(m) => if m <= 255 {
            Some(m as u8)
        } else {
            None
        },
    }
}

} // verus!
