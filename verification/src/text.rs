//! Text: numbers as text, text from bytes, and the comparison of texts.
use crate::tagvalue::digits::{
    digits_of, is_digit, lemma_digits_of, render_decimal, render_signed, signed_digits_of,
};
use crate::traits::string_from_utf8;
use vstd::prelude::*;
use vstd::string::StringExecFns;
use vstd::utf8::{
    decode_utf8, encode_utf8, encode_utf8_decode_utf8, encode_utf8_valid_utf8,
    is_ascii_chars, is_ascii_chars_encode_utf8, valid_utf8,
};

verus! {

/// The characters that stand for the bytes of an ASCII text.
pub open spec fn ascii_chars(bytes: Seq<u8>) -> Seq<char> {
    Seq::new(bytes.len(), |i: int| bytes[i] as char)
}

/// Whether every byte is an ASCII character.
pub open spec fn all_ascii(bytes: Seq<u8>) -> bool {
    forall|i: int| 0 <= i < bytes.len() ==> #[trigger] bytes[i] < 0x80
}

/// Bytes of ASCII are valid UTF-8, and encode their own characters.
pub proof fn lemma_ascii_text(bytes: Seq<u8>)
    requires
        all_ascii(bytes),
    ensures
        valid_utf8(bytes),
        decode_utf8(bytes) == ascii_chars(bytes),
        encode_utf8(ascii_chars(bytes)) == bytes,
{
    let chars = ascii_chars(bytes);
    assert(is_ascii_chars(chars)) by {
        assert forall|i: int| 0 <= i < chars.len() implies '\0' <= #[trigger] chars[i]
            <= '\u{7f}' by {
            assert(bytes[i] < 0x80);
        }
    }
    is_ascii_chars_encode_utf8(chars);
    assert(encode_utf8(chars) =~= bytes) by {
        assert forall|i: int| 0 <= i < bytes.len() implies encode_utf8(chars)[i] == bytes[i] by {
            assert(chars[i] as u8 == encode_utf8(chars)[i]);
            assert(bytes[i] < 0x80);
        }
    }
    encode_utf8_valid_utf8(chars);
    encode_utf8_decode_utf8(chars);
}

/// Makes a text of ASCII bytes.
pub fn ascii_to_string(bytes: &[u8]) -> (r: String)
    requires
        all_ascii(bytes@),
    ensures
        r@ == ascii_chars(bytes@),
{
    proof {
        lemma_ascii_text(bytes@);
    }
    match string_from_utf8(bytes) {
        Some(s) => s,
        None => String::new(),
    }
}

/// The text of a signed number.
pub fn signed_to_string(n: i64) -> (r: String)
    ensures
        r@ == ascii_chars(signed_digits_of(n as int)),
{
    let mut bytes: Vec<u8> = Vec::new();
    render_signed(n, &mut bytes);
    proof {
        let magnitude: nat = if n < 0 {
            (-n) as nat
        } else {
            n as nat
        };
        lemma_digits_of(magnitude);
        assert(bytes@ =~= signed_digits_of(n as int));
        assert forall|i: int| 0 <= i < bytes@.len() implies #[trigger] bytes@[i] < 0x80 by {
            if n < 0 {
                if i > 0 {
                    assert(bytes@[i] == digits_of(magnitude)[i - 1]);
                    assert(is_digit(digits_of(magnitude)[i - 1]));
                }
            } else {
                assert(is_digit(digits_of(magnitude)[i]));
            }
        }
    }
    ascii_to_string(bytes.as_slice())
}

/// The text of an unsigned number.
pub fn unsigned_to_string(n: u64) -> (r: String)
    ensures
        r@ == ascii_chars(digits_of(n as nat)),
{
    let mut bytes: Vec<u8> = Vec::new();
    render_decimal(n, &mut bytes);
    proof {
        lemma_digits_of(n as nat);
        assert(bytes@ =~= digits_of(n as nat));
        assert forall|i: int| 0 <= i < bytes@.len() implies #[trigger] bytes@[i] < 0x80 by {
            assert(is_digit(digits_of(n as nat)[i]));
        }
    }
    ascii_to_string(bytes.as_slice())
}

/// A complaint: `prefix` and then the text in question.
pub fn complaint(prefix: &str, text: String) -> (r: String)
    ensures
        r@ == prefix@ + text@,
{
    String::from_str(prefix).concat(text.as_str())
}

/// Compares two texts.
pub fn str_eq(a: &str, b: &str) -> (r: bool)
    ensures
        r == (a@ == b@),
{
    let x: &[u8] = a.as_bytes();
    let y: &[u8] = b.as_bytes();
    if x.len() != y.len() {
        return false;
    }
    let mut i: usize = 0;
    while i < x.len()
        invariant
            i <= x.len(),
            x.len() == y.len(),
            x@ == encode_utf8(a@),
            y@ == encode_utf8(b@),
            forall|j: int| 0 <= j < i ==> x@[j] == y@[j],
        decreases x.len() - i,
    {
        if x[i] != y[i] {
            return false;
        }
        i = i + 1;
    }
    proof {
        assert(x@ =~= y@);
        encode_utf8_decode_utf8(a@);
        encode_utf8_decode_utf8(b@);
    }
    true
}

} // verus!
