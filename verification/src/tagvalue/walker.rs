//! Walking the fields of a body: where the next field's tag and value are.
use super::digits::{parse_decimal, spec_parse_decimal};
use super::error::{syntax_error, DecodeError, FieldSyntaxError};
use super::scan::{
    digits_end, find_byte, index_of, lemma_digits_end, lemma_index_of, skip_digits,
};
use vstd::prelude::*;

verus! {

/// One field in a body, as places in it. The field ends with the separator
/// at `value_end`, and the next field starts behind it.
pub struct FieldSpan {
    pub tag: u32,
    pub value_start: int,
    pub value_end: int,
}

/// Reads the field that starts at `pos`.
///
/// The tag is the run of digits up to `=`. The value reaches to the next
/// separator, unless the field before fixed its length: then it takes
/// exactly `pending` bytes, whatever they are, and the separator has to
/// follow.
pub open spec fn spec_next_field(
    payload: Seq<u8>,
    sep: u8,
    pos: int,
    pending: Option<usize>,
) -> Result<FieldSpan, DecodeError> {
    let d = digits_end(payload, pos);
    if d >= payload.len() {
        Err(syntax_error(FieldSyntaxError::MissingEquals))
    } else if payload[d] != 0x3d {
        Err(syntax_error(FieldSyntaxError::InvalidTag))
    } else {
        match spec_parse_decimal(payload.subrange(pos, d), u32::MAX as nat) {
            None => Err(syntax_error(FieldSyntaxError::InvalidTag)),
            Some(tag) => if tag == 0 {
                Err(syntax_error(FieldSyntaxError::InvalidTag))
            } else {
                let value_start = d + 1;
                match pending {
                    Some(n) => if value_start + n > payload.len() {
                        Err(syntax_error(FieldSyntaxError::OutOfBounds))
                    } else if value_start + n == payload.len() || payload[value_start + n] != sep {
                        Err(syntax_error(FieldSyntaxError::MissingSeparator))
                    } else {
                        Ok(FieldSpan { tag: tag as u32, value_start, value_end: value_start + n })
                    },
                    None => if index_of(payload, sep, value_start) >= payload.len() {
                        Err(syntax_error(FieldSyntaxError::MissingSeparator))
                    } else {
                        Ok(
                            FieldSpan {
                                tag: tag as u32,
                                value_start,
                                value_end: index_of(payload, sep, value_start),
                            },
                        )
                    },
                }
            },
        }
    }
}

/// A field that was read lies in the body behind `pos`, and its tag is not
/// 0.
pub proof fn lemma_next_field_bounds(payload: Seq<u8>, sep: u8, pos: int, pending: Option<usize>)
    requires
        0 <= pos <= payload.len(),
    ensures
        spec_next_field(payload, sep, pos, pending) matches Ok(f) ==> f.tag != 0 && pos
            < f.value_start <= f.value_end < payload.len() && payload[f.value_end] == sep,
{
    lemma_digits_end(payload, pos);
    let d = digits_end(payload, pos);
    if d < payload.len() {
        lemma_index_of(payload, sep, d + 1);
    }
}

/// One field in a body, as found by [`next_field`].
#[derive(Debug, Clone, Copy)]
pub struct FieldInfo {
    pub tag: u32,
    pub value_start: usize,
    pub value_end: usize,
}

impl View for FieldInfo {
    type V = FieldSpan;

    open spec fn view(&self) -> FieldSpan {
        FieldSpan {
            tag: self.tag,
            value_start: self.value_start as int,
            value_end: self.value_end as int,
        }
    }
}

/// Reads the field that starts at `pos` of `payload`.
pub fn next_field(payload: &[u8], sep: u8, pos: usize, pending: Option<usize>) -> (r: Result<
    FieldInfo,
    DecodeError,
>)
    requires
        pos <= payload.len(),
    ensures
        match spec_next_field(payload@, sep, pos as int, pending) {
            Ok(f) => r matches Ok(info) && info@ == f,
            Err(e) => r == Err::<FieldInfo, DecodeError>(e),
        },
        r matches Ok(info) ==> info.tag != 0 && pos < info.value_start <= info.value_end
            < payload.len(),
{
    let n: usize = payload.len();
    let d: usize = skip_digits(payload, pos);
    if d >= n {
        return Err(DecodeError::syntax(FieldSyntaxError::MissingEquals));
    }
    if payload[d] != 0x3d {
        return Err(DecodeError::syntax(FieldSyntaxError::InvalidTag));
    }
    let tag: u32 = match parse_decimal(payload, pos, d, u32::MAX as u64) {
        None => {
            return Err(DecodeError::syntax(FieldSyntaxError::InvalidTag));
        },
        Some(t) => t as u32,
    };
    if tag == 0 {
        return Err(DecodeError::syntax(FieldSyntaxError::InvalidTag));
    }
    let value_start: usize = d + 1;
    match pending {
        Some(len) => {
            if len > n - value_start {
                return Err(DecodeError::syntax(FieldSyntaxError::OutOfBounds));
            }
            let value_end: usize = value_start + len;
            if value_end == n || payload[value_end] != sep {
                return Err(DecodeError::syntax(FieldSyntaxError::MissingSeparator));
            }
            Ok(FieldInfo { tag, value_start, value_end })
        },
        None => {
            let value_end: usize = find_byte(payload, value_start, sep);
            if value_end >= n {
                return Err(DecodeError::syntax(FieldSyntaxError::MissingSeparator));
            }
            Ok(FieldInfo { tag, value_start, value_end })
        },
    }
}

} // verus!
