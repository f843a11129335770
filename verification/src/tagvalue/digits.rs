//! Unsigned decimal numbers written in ASCII digits.
use vstd::prelude::*;

verus! {

/// Whether `b` is one of the ASCII digits `0` to `9`.
pub open spec fn is_digit(b: u8) -> bool {
    0x30 <= b && b <= 0x39
}

/// Whether every byte of `s` is an ASCII digit.
pub open spec fn all_digits(s: Seq<u8>) -> bool {
    forall|i: int| 0 <= i < s.len() ==> is_digit(#[trigger] s[i])
}

/// The number that the digits of `s` denote, most significant digit first.
/// The empty sequence denotes zero.
pub open spec fn decimal_value(s: Seq<u8>) -> nat
    decreases s.len(),
{
    if s.len() == 0 {
        0
    } else {
        decimal_value(s.drop_last()) * 10 + (s.last() - 0x30) as nat
    }
}

/// What a run of bytes denotes as an unsigned decimal number no greater than
/// `limit`: the run must be non-empty and hold digits only.
pub open spec fn spec_parse_decimal(s: Seq<u8>, limit: nat) -> Option<nat> {
    if s.len() > 0 && all_digits(s) && decimal_value(s) <= limit {
        Some(decimal_value(s))
    } else {
        None
    }
}

/// A longer run of digits never denotes a smaller number than its prefix.
pub proof fn lemma_decimal_value_prefix(s: Seq<u8>, k: int)
    requires
        all_digits(s),
        0 <= k <= s.len(),
    ensures
        decimal_value(s.take(k)) <= decimal_value(s),
    decreases s.len() - k,
{
    if k < s.len() {
        lemma_decimal_value_prefix(s, k + 1);
        assert(s.take(k + 1).drop_last() =~= s.take(k));
        assert(is_digit(s[k]));
        assert(s.take(k + 1).last() == s[k]);
    } else {
        assert(s.take(k) =~= s);
    }
}

/// Tests whether `b` is an ASCII digit.
pub fn byte_is_digit(b: u8) -> (r: bool)
    ensures
        r == is_digit(b),
{
    0x30 <= b && b <= 0x39
}

/// Reads `data[start..end]` as an unsigned decimal number no greater than
/// `limit`. Gives `None` for an empty run, for a byte that is no digit and for
/// a number above the limit.
pub fn parse_decimal(data: &[u8], start: usize, end: usize, limit: u64) -> (r: Option<u64>)
    requires
        start <= end <= data.len(),
    ensures
        r matches Some(v) ==> spec_parse_decimal(data@.subrange(start as int, end as int), limit as nat)
            == Some(v as nat),
        r is None ==> spec_parse_decimal(data@.subrange(start as int, end as int), limit as nat)
            is None,
{
    let ghost s = data@.subrange(start as int, end as int);
    if start == end {
        return None;
    }
    let mut acc: u64 = 0;
    let mut i: usize = start;
    proof {
        assert(s.take(0) =~= Seq::<u8>::empty());
    }
    while i < end
        invariant
            start <= i <= end <= data.len(),
            s == data@.subrange(start as int, end as int),
            all_digits(s.take(i - start)),
            acc as nat == decimal_value(s.take(i - start)),
            acc <= limit,
        decreases end - i,
    {
        let b: u8 = data[i];
        assert(s[i - start] == b);
        if !byte_is_digit(b) {
            assert(!all_digits(s));
            return None;
        }
        let d: u64 = (b - 0x30) as u64;
        proof {
            assert(s.take(i - start + 1).drop_last() =~= s.take(i - start));
            assert(s.take(i - start + 1).last() == b);
            assert(decimal_value(s.take(i - start + 1)) == acc * 10 + d);
            assert forall|j: int| 0 <= j < i - start + 1 implies is_digit(
                #[trigger] s.take(i - start + 1)[j],
            ) by {
                if j < i - start {
                    assert(s.take(i - start)[j] == s[j]);
                }
            }
        }
        if acc > limit / 10 || d > limit - acc * 10 {
            proof {
                if all_digits(s) {
                    lemma_decimal_value_prefix(s, i - start + 1);
                }
            }
            return None;
        }
        acc = acc * 10 + d;
        i = i + 1;
    }
    proof {
        assert(s.take(i - start) =~= s);
    }
    Some(acc)
}

/// What a run of bytes denotes as an unsigned number no greater than
/// `limit`, in the notation that Rust's own integer parsing reads: digits,
/// and perhaps a `+` before them.
pub open spec fn spec_parse_unsigned(s: Seq<u8>, limit: nat) -> Option<nat> {
    if s.len() > 0 && s[0] == 0x2b {
        spec_parse_decimal(s.skip(1), limit)
    } else {
        spec_parse_decimal(s, limit)
    }
}

/// Reads `data` as an unsigned number no greater than `limit`: digits, and
/// perhaps a `+` before them.
pub fn parse_unsigned(data: &[u8], limit: u64) -> (r: Option<u64>)
    ensures
        r matches Some(v) ==> spec_parse_unsigned(data@, limit as nat) == Some(v as nat),
        r is None ==> spec_parse_unsigned(data@, limit as nat) is None,
{
    let start: usize = if data.len() > 0 && data[0] == 0x2b {
        1
    } else {
        0
    };
    proof {
        assert(data@.subrange(0, data@.len() as int) =~= data@);
        assert(data@.subrange(start as int, data@.len() as int) =~= data@.skip(start as int));
    }
    parse_decimal(data, start, data.len(), limit)
}

/// What a run of bytes denotes as a number between `min` and `max`, in the
/// notation that Rust's own integer parsing reads: digits, and perhaps a
/// `+` or a `-` before them.
pub open spec fn spec_parse_signed(s: Seq<u8>, min: int, max: int) -> Option<int> {
    if s.len() > 0 && s[0] == 0x2d {
        if s.len() > 1 && all_digits(s.skip(1)) && -(decimal_value(s.skip(1)) as int) >= min {
            Some(-(decimal_value(s.skip(1)) as int))
        } else {
            None
        }
    } else {
        match spec_parse_unsigned(s, max as nat) {
            Some(v) => Some(v as int),
            None => None,
        }
    }
}

/// Reads `data` as a number between `min` and `max`: digits, and perhaps a
/// `+` or a `-` before them.
pub fn parse_signed(data: &[u8], min: i64, max: i64) -> (r: Option<i64>)
    requires
        min <= 0 <= max,
    ensures
        r matches Some(v) ==> spec_parse_signed(data@, min as int, max as int) == Some(v as int),
        r is None ==> spec_parse_signed(data@, min as int, max as int) is None,
{
    if data.len() > 0 && data[0] == 0x2d {
        proof {
            assert(data@.subrange(1, data@.len() as int) =~= data@.skip(1));
        }
        let limit: u64 = if min == i64::MIN {
            0x8000_0000_0000_0000u64
        } else {
            (-min) as u64
        };
        match parse_decimal(data, 1, data.len(), limit) {
            Some(v) => {
                if v == 0x8000_0000_0000_0000u64 {
                    Some(i64::MIN)
                } else {
                    Some(-(v as i64))
                }
            },
            None => None,
        }
    } else {
        match parse_unsigned(data, max as u64) {
            Some(v) => Some(v as i64),
            None => None,
        }
    }
}

/// The digits of `n`, most significant first, without leading zeros.
pub open spec fn digits_of(n: nat) -> Seq<u8>
    decreases n,
{
    if n < 10 {
        seq![(0x30 + n) as u8]
    } else {
        digits_of(n / 10).push((0x30 + n % 10) as u8)
    }
}

/// The digits of a number are digits, at least one, and denote the number.
pub proof fn lemma_digits_of(n: nat)
    ensures
        digits_of(n).len() > 0,
        all_digits(digits_of(n)),
        decimal_value(digits_of(n)) == n,
    decreases n,
{
    if n < 10 {
        let s = digits_of(n);
        assert(s.drop_last().len() == 0);
        assert(decimal_value(s.drop_last()) == 0);
    } else {
        lemma_digits_of(n / 10);
        let head = digits_of(n / 10);
        let s = head.push((0x30 + n % 10) as u8);
        assert(s.drop_last() =~= head);
        assert forall|i: int| 0 <= i < s.len() implies is_digit(#[trigger] s[i]) by {
            if i < head.len() {
                assert(s[i] == head[i]);
            }
        }
    }
}

/// Reading the digits of a number gives the number back.
pub proof fn lemma_parse_digits_of(n: nat, limit: nat)
    requires
        n <= limit,
    ensures
        spec_parse_decimal(digits_of(n), limit) == Some(n),
        spec_parse_unsigned(digits_of(n), limit) == Some(n),
{
    lemma_digits_of(n);
    assert(is_digit(digits_of(n)[0]));
}

/// Appends the digits of `n` to `out`.
pub fn render_decimal(n: u64, out: &mut Vec<u8>)
    ensures
        final(out)@ == old(out)@ + digits_of(n as nat),
    decreases n,
{
    if n >= 10 {
        render_decimal(n / 10, out);
    }
    let d: u8 = (n % 10) as u8;
    out.push(0x30 + d);
    proof {
        if n >= 10 {
            assert(final(out)@ =~= old(out)@ + digits_of(n as nat));
        } else {
            assert(final(out)@ =~= old(out)@ + digits_of(n as nat));
        }
    }
}

/// The notation of `n` in digits, with a `-` before them where `n` is
/// negative.
pub open spec fn signed_digits_of(n: int) -> Seq<u8> {
    if n < 0 {
        seq![0x2du8] + digits_of((-n) as nat)
    } else {
        digits_of(n as nat)
    }
}

/// Appends the notation of `n` to `out`.
pub fn render_signed(n: i64, out: &mut Vec<u8>)
    ensures
        final(out)@ == old(out)@ + signed_digits_of(n as int),
{
    if n < 0 {
        out.push(0x2d);
        let magnitude: u64 = if n == i64::MIN {
            0x8000_0000_0000_0000u64
        } else {
            (-n) as u64
        };
        render_decimal(magnitude, out);
        proof {
            assert(final(out)@ =~= old(out)@ + signed_digits_of(n as int));
        }
    } else {
        render_decimal(n as u64, out);
    }
}

} // verus!
