//! Decimal numbers of the `rust_decimal` crate as values of fields.
use crate::asn1::types::{FixFieldValue, FixFieldValueView, ToFixFieldValue};
use crate::traits::{string_from_utf8, Buffer, FieldType};
use rust_decimal::Decimal;
use std::str::FromStr;
use vstd::prelude::*;
use vstd::utf8::{decode_utf8, encode_utf8, valid_utf8};

verus! {

/// A decimal number of `rust_decimal`.
#[verifier::external_type_specification]
#[verifier::external_body]
pub struct ExDecimal(Decimal);

/// The text of a decimal number: what `Display` writes for it.
pub uninterp spec fn decimal_text(d: Decimal) -> Seq<char>;

/// The text of the decimal number that `Decimal::from_str` reads from a
/// text, where it reads one.
pub uninterp spec fn spec_parsed_decimal(s: Seq<char>) -> Option<Seq<char>>;

/// `Decimal::to_string`: the text of the number.
#[verifier::external_body]
pub(crate) fn decimal_to_string(d: &Decimal) -> (r: String)
    ensures
        r@ == decimal_text(*d),
{
    d.to_string()
}

/// `Decimal::from_str`: the number that the text stands for, where it
/// stands for one. What is read depends on the text alone.
#[verifier::external_body]
pub(crate) fn decimal_from_str(s: &str) -> (r: Option<Decimal>)
    ensures
        match r {
            Some(d) => spec_parsed_decimal(s@) == Some(decimal_text(d)),
            None => spec_parsed_decimal(s@) is None,
        },
{
    Decimal::from_str(s).ok()
}

/// The complaint about bytes that are no UTF-8.
pub const ERR_UTF8: &'static str = "Invalid byte sequence; expected UTF-8 valid bytes.";

/// The complaint about a text that is no decimal number.
pub const ERR_DECIMAL: &'static str = "Invalid decimal number.";

/// Reads bytes as a decimal number: they have to be UTF-8, and the text a
/// decimal number.
pub fn read_decimal(data: &[u8]) -> (r: Result<Decimal, &'static str>)
    ensures
        !valid_utf8(data@) ==> r == Err::<Decimal, &'static str>(ERR_UTF8),
        valid_utf8(data@) && spec_parsed_decimal(decode_utf8(data@)) is None ==> r == Err::<
            Decimal,
            &'static str,
        >(ERR_DECIMAL),
        valid_utf8(data@) && spec_parsed_decimal(decode_utf8(data@)) is Some ==> (r matches Ok(d)
            && spec_parsed_decimal(decode_utf8(data@)) == Some(decimal_text(d))),
{
    let s: String = match string_from_utf8(data) {
        Some(s) => s,
        None => {
            return Err(ERR_UTF8);
        },
    };
    match decimal_from_str(s.as_str()) {
        Some(d) => Ok(d),
        None => Err(ERR_DECIMAL),
    }
}

/// A decimal number is written as its text and read from its text.
impl<'a> FieldType<'a> for Decimal {
    type Error = &'static str;

    type SerializeSettings = ();

    open spec fn spec_serialize(&self, settings: ()) -> Seq<u8> {
        encode_utf8(decimal_text(*self))
    }

    open spec fn read_error(data: Seq<u8>, lossy: bool) -> &'static str {
        if valid_utf8(data) {
            ERR_DECIMAL
        } else {
            ERR_UTF8
        }
    }

    open spec fn default_settings() -> () {
        ()
    }

    open spec fn readable(data: Seq<u8>) -> bool {
        valid_utf8(data) && spec_parsed_decimal(decode_utf8(data)) is Some
    }

    open spec fn reads_as(data: Seq<u8>, value: Decimal) -> bool {
        spec_parsed_decimal(decode_utf8(data)) == Some(decimal_text(value))
    }

    open spec fn readable_lossy(data: Seq<u8>) -> bool {
        Self::readable(data)
    }

    open spec fn reads_lossy_as(data: Seq<u8>, value: Decimal) -> bool {
        Self::reads_as(data, value)
    }

    fn serialize<B>(&self, buffer: &mut B) -> (n: usize) where B: Buffer {
        <Decimal as FieldType<'a>>::serialize_with(self, buffer, ())
    }

    fn serialize_with<B>(&self, buffer: &mut B, _settings: ()) -> (n: usize) where B: Buffer {
        let text: String = decimal_to_string(self);
        let bytes: &[u8] = text.as_str().as_bytes();
        buffer.extend_from_slice(bytes);
        bytes.len()
    }

    fn deserialize(data: &'a [u8]) -> (r: Result<Decimal, &'static str>) {
        read_decimal(data)
    }

    fn deserialize_lossy(data: &'a [u8]) -> (r: Result<Decimal, &'static str>) {
        read_decimal(data)
    }
}

impl ToFixFieldValue for Decimal {
    open spec fn spec_fix_field_value(&self) -> FixFieldValueView {
        FixFieldValueView::Decimal(decimal_text(*self))
    }

    fn to_fix_field_value(&self) -> (r: FixFieldValue) {
        FixFieldValue::Decimal(decimal_to_string(self))
    }
}

} // verus!
