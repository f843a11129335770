//! Which texts are decimal numbers.
//!
//! A text counts as a decimal number where Rust reads it as a number with a
//! fraction. That is the case for an optional sign that is followed by
//! `inf`, `infinity` or `nan` in any mix of cases, or by a number: digits
//! with at most one `.` among them, at least one digit in all, and perhaps
//! an exponent of `e` or `E`, an optional sign and at least one digit.
use crate::tagvalue::scan::{digits_end, lemma_digits_end, skip_digits};
use vstd::prelude::*;

verus! {

/// The lower-case form of an ASCII letter; any other byte as it is.
pub open spec fn spec_lower(b: u8) -> u8 {
    if 0x41 <= b && b <= 0x5a {
        (b + 0x20) as u8
    } else {
        b
    }
}

/// Whether `s` from `from` on is the lower-case word `w` in any mix of
/// cases.
pub open spec fn spec_is_word(s: Seq<u8>, from: int, w: Seq<u8>) -> bool {
    s.len() - from == w.len() && forall|i: int|
        0 <= i < w.len() ==> spec_lower(#[trigger] s[from + i]) == w[i]
}

/// Whether `s` from `from` on is empty or an exponent.
pub open spec fn spec_exponent_ok(s: Seq<u8>, from: int) -> bool {
    from == s.len() || (from < s.len() && (s[from] == 0x65 || s[from] == 0x45) && {
        let d0 = if from + 1 < s.len() && (s[from + 1] == 0x2b || s[from + 1] == 0x2d) {
            from + 2
        } else {
            from + 1
        };
        d0 < s.len() && digits_end(s, d0) == s.len()
    })
}

/// Whether `s` from `from` on is a number: digits with at most one `.`
/// among them and at least one digit in all, and perhaps an exponent.
pub open spec fn spec_is_number(s: Seq<u8>, from: int) -> bool {
    let i1 = digits_end(s, from);
    if i1 < s.len() && s[i1] == 0x2e {
        let i2 = digits_end(s, i1 + 1);
        (i1 > from || i2 > i1 + 1) && spec_exponent_ok(s, i2)
    } else {
        i1 > from && spec_exponent_ok(s, i1)
    }
}

/// The word `inf` in bytes.
pub open spec fn word_inf() -> Seq<u8> {
    seq![0x69u8, 0x6eu8, 0x66u8]
}

/// The word `infinity` in bytes.
pub open spec fn word_infinity() -> Seq<u8> {
    seq![0x69u8, 0x6eu8, 0x66u8, 0x69u8, 0x6eu8, 0x69u8, 0x74u8, 0x79u8]
}

/// The word `nan` in bytes.
pub open spec fn word_nan() -> Seq<u8> {
    seq![0x6eu8, 0x61u8, 0x6eu8]
}

/// Whether `s` is a decimal number.
pub open spec fn spec_is_decimal(s: Seq<u8>) -> bool {
    let from: int = if s.len() > 0 && (s[0] == 0x2b || s[0] == 0x2d) {
        1
    } else {
        0
    };
    spec_is_word(s, from, word_inf()) || spec_is_word(s, from, word_infinity()) || spec_is_word(
        s,
        from,
        word_nan(),
    ) || spec_is_number(s, from)
}

/// Gives an ASCII letter in lower case and any other byte as it is.
pub fn lower(b: u8) -> (r: u8)
    ensures
        r == spec_lower(b),
{
    if 0x41 <= b && b <= 0x5a {
        b + 0x20
    } else {
        b
    }
}

/// Tests whether `data` from `from` on is the lower-case word `w` in any
/// mix of cases.
pub fn is_word(data: &[u8], from: usize, w: &[u8]) -> (r: bool)
    requires
        from <= data.len(),
    ensures
        r == spec_is_word(data@, from as int, w@),
{
    if data.len() - from != w.len() {
        return false;
    }
    let mut i: usize = 0;
    while i < w.len()
        invariant
            i <= w.len(),
            from <= data.len(),
            data.len() - from == w.len(),
            forall|j: int| 0 <= j < i ==> spec_lower(#[trigger] data@[from + j]) == w@[j],
        decreases w.len() - i,
    {
        if lower(data[from + i]) != w[i] {
            return false;
        }
        i = i + 1;
    }
    true
}

/// Tests whether `data` from `from` on is empty or an exponent.
pub fn exponent_ok(data: &[u8], from: usize) -> (r: bool)
    requires
        from <= data.len(),
    ensures
        r == spec_exponent_ok(data@, from as int),
{
    let n: usize = data.len();
    if from == n {
        return true;
    }
    if data[from] != 0x65 && data[from] != 0x45 {
        return false;
    }
    let d0: usize = if n - from > 1 && (data[from + 1] == 0x2b || data[from + 1] == 0x2d) {
        from + 2
    } else {
        from + 1
    };
    if d0 >= n {
        return false;
    }
    skip_digits(data, d0) == n
}

/// Tests whether `data` from `from` on is a number.
pub fn is_number(data: &[u8], from: usize) -> (r: bool)
    requires
        from <= data.len(),
    ensures
        r == spec_is_number(data@, from as int),
{
    let n: usize = data.len();
    let i1: usize = skip_digits(data, from);
    if i1 < n && data[i1] == 0x2e {
        let i2: usize = skip_digits(data, i1 + 1);
        (i1 > from || i2 > i1 + 1) && exponent_ok(data, i2)
    } else {
        i1 > from && exponent_ok(data, i1)
    }
}

/// Tests whether `data` is a decimal number.
pub fn is_decimal(data: &[u8]) -> (r: bool)
    ensures
        r == spec_is_decimal(data@),
{
    let from: usize = if data.len() > 0 && (data[0] == 0x2b || data[0] == 0x2d) {
        1
    } else {
        0
    };
    let inf: [u8; 3] = [0x69, 0x6e, 0x66];
    let infinity: [u8; 8] = [0x69, 0x6e, 0x66, 0x69, 0x6e, 0x69, 0x74, 0x79];
    let nan: [u8; 3] = [0x6e, 0x61, 0x6e];
    proof {
        assert(inf@ =~= word_inf());
        assert(infinity@ =~= word_infinity());
        assert(nan@ =~= word_nan());
    }
    is_word(data, from, inf.as_slice()) || is_word(data, from, infinity.as_slice()) || is_word(
        data,
        from,
        nan.as_slice(),
    ) || is_number(data, from)
}

} // verus!
