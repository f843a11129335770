//! Searching a buffer for the first byte of some kind.
use super::digits::{byte_is_digit, is_digit};
use vstd::prelude::*;

verus! {

/// The index of the first `b` at or after `from`, or the length of `s` where
/// there is none.
pub open spec fn index_of(s: Seq<u8>, b: u8, from: int) -> int
    decreases s.len() - from,
{
    if from >= s.len() {
        s.len() as int
    } else if s[from] == b {
        from
    } else {
        index_of(s, b, from + 1)
    }
}

/// The index of the first byte at or after `from` that is no digit, or the
/// length of `s` where there is none.
pub open spec fn digits_end(s: Seq<u8>, from: int) -> int
    decreases s.len() - from,
{
    if from >= s.len() {
        s.len() as int
    } else if !is_digit(s[from]) {
        from
    } else {
        digits_end(s, from + 1)
    }
}

/// Where `index_of` points: at the first `b`, or at the end.
pub proof fn lemma_index_of(s: Seq<u8>, b: u8, from: int)
    requires
        0 <= from <= s.len(),
    ensures
        from <= index_of(s, b, from) <= s.len(),
        index_of(s, b, from) < s.len() ==> s[index_of(s, b, from)] == b,
        forall|j: int| from <= j < index_of(s, b, from) ==> #[trigger] s[j] != b,
    decreases s.len() - from,
{
    if from < s.len() && s[from] != b {
        lemma_index_of(s, b, from + 1);
    }
}

/// `index_of` gives `r` where `r` is the first place that holds `b`.
pub proof fn lemma_index_of_is(s: Seq<u8>, b: u8, from: int, r: int)
    requires
        0 <= from <= r <= s.len(),
        r < s.len() ==> s[r] == b,
        forall|j: int| from <= j < r ==> #[trigger] s[j] != b,
    ensures
        index_of(s, b, from) == r,
    decreases r - from,
{
    if from < r {
        assert(s[from] != b);
        lemma_index_of_is(s, b, from + 1, r);
    }
}

/// In a prefix a byte is found where the whole buffer holds it, or not at
/// all.
pub proof fn lemma_index_of_prefix(s: Seq<u8>, b: u8, from: int, k: int)
    requires
        0 <= from,
        0 <= k <= s.len(),
    ensures
        index_of(s.take(k), b, from) == if index_of(s, b, from) < k {
            index_of(s, b, from)
        } else {
            k
        },
{
    let t = s.take(k);
    if from >= k {
        if from <= s.len() {
            lemma_index_of(s, b, from);
        }
    } else {
        lemma_index_of(s, b, from);
        let r = index_of(s, b, from);
        let r2 = if r < k { r } else { k };
        assert forall|j: int| from <= j < r2 implies #[trigger] t[j] != b by {
            assert(t[j] == s[j]);
        }
        lemma_index_of_is(t, b, from, r2);
    }
}

/// Two buffers that agree on their first `k` bytes hold the first `b` at
/// the same place, where that place lies before `k`.
pub proof fn lemma_index_of_agree(s: Seq<u8>, t: Seq<u8>, b: u8, from: int, k: int)
    requires
        0 <= from <= k,
        k <= s.len(),
        k <= t.len(),
        s.take(k) == t.take(k),
        index_of(s, b, from) < k,
    ensures
        index_of(t, b, from) == index_of(s, b, from),
{
    lemma_index_of_prefix(s, b, from, k);
    lemma_index_of_prefix(t, b, from, k);
}

/// Where `digits_end` points: behind a run of digits.
pub proof fn lemma_digits_end(s: Seq<u8>, from: int)
    requires
        0 <= from <= s.len(),
    ensures
        from <= digits_end(s, from) <= s.len(),
        digits_end(s, from) < s.len() ==> !is_digit(s[digits_end(s, from)]),
        forall|j: int| from <= j < digits_end(s, from) ==> is_digit(#[trigger] s[j]),
    decreases s.len() - from,
{
    if from < s.len() && is_digit(s[from]) {
        lemma_digits_end(s, from + 1);
    }
}

/// `digits_end` gives `r` where `r` is the first place that holds no digit.
pub proof fn lemma_digits_end_is(s: Seq<u8>, from: int, r: int)
    requires
        0 <= from <= r <= s.len(),
        r < s.len() ==> !is_digit(s[r]),
        forall|j: int| from <= j < r ==> is_digit(#[trigger] s[j]),
    ensures
        digits_end(s, from) == r,
    decreases r - from,
{
    if from < r {
        assert(is_digit(s[from]));
        lemma_digits_end_is(s, from + 1, r);
    }
}

/// In a prefix a run of digits ends where it ends in the whole buffer, or
/// at the end of the prefix.
pub proof fn lemma_digits_end_prefix(s: Seq<u8>, from: int, k: int)
    requires
        0 <= from,
        0 <= k <= s.len(),
    ensures
        digits_end(s.take(k), from) == if digits_end(s, from) < k {
            digits_end(s, from)
        } else {
            k
        },
{
    let t = s.take(k);
    if from >= k {
        if from <= s.len() {
            lemma_digits_end(s, from);
        }
    } else {
        lemma_digits_end(s, from);
        let r = digits_end(s, from);
        let r2 = if r < k { r } else { k };
        assert forall|j: int| from <= j < r2 implies is_digit(#[trigger] t[j]) by {
            assert(t[j] == s[j]);
        }
        lemma_digits_end_is(t, from, r2);
    }
}

/// Two buffers that agree on their first `k` bytes end a run of digits at
/// the same place, where that place lies before `k`.
pub proof fn lemma_digits_end_agree(s: Seq<u8>, t: Seq<u8>, from: int, k: int)
    requires
        0 <= from <= k,
        k <= s.len(),
        k <= t.len(),
        s.take(k) == t.take(k),
        digits_end(s, from) < k,
    ensures
        digits_end(t, from) == digits_end(s, from),
{
    lemma_digits_end_prefix(s, from, k);
    lemma_digits_end_prefix(t, from, k);
}

/// Finds the first `b` at or after `from`.
pub fn find_byte(data: &[u8], from: usize, b: u8) -> (r: usize)
    requires
        from <= data.len(),
    ensures
        r == index_of(data@, b, from as int),
        from <= r <= data.len(),
{
    let mut i: usize = from;
    while i < data.len() && data[i] != b
        invariant
            from <= i <= data.len(),
            forall|j: int| from <= j < i ==> #[trigger] data@[j] != b,
        decreases data.len() - i,
    {
        i = i + 1;
    }
    proof {
        lemma_index_of_is(data@, b, from as int, i as int);
    }
    i
}

/// Finds the first byte at or after `from` that is no digit.
pub fn skip_digits(data: &[u8], from: usize) -> (r: usize)
    requires
        from <= data.len(),
    ensures
        r == digits_end(data@, from as int),
        from <= r <= data.len(),
{
    let mut i: usize = from;
    while i < data.len() && byte_is_digit(data[i])
        invariant
            from <= i <= data.len(),
            forall|j: int| from <= j < i ==> is_digit(#[trigger] data@[j]),
        decreases data.len() - i,
    {
        i = i + 1;
    }
    proof {
        lemma_digits_end_is(data@, from as int, i as int);
    }
    i
}

} // verus!
