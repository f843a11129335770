//! Typed field values: what a field holds once its type is known.
use super::decimal::{is_decimal, spec_is_decimal};
use super::field_types::{lossy_text, string_from_utf8_lossy};
use super::schema::{FieldTypeInfo, FixDataType, Schema};
use super::time::{probe_times, spec_is_date, spec_is_time, spec_is_timestamp, TimeProbes};
use crate::tagvalue::digits::{
    digits_of, parse_signed, parse_unsigned, render_decimal, render_signed, signed_digits_of,
    spec_parse_signed, spec_parse_unsigned,
};
use crate::text::{ascii_chars, complaint, signed_to_string, unsigned_to_string};
use crate::traits::string_from_utf8;
use vstd::prelude::*;
use vstd::slice::slice_to_vec;
use vstd::string::StringExecFns;
use vstd::utf8::{decode_utf8, encode_utf8, valid_utf8};

verus! {

/// A typed field value.
#[derive(Debug, PartialEq)]
pub enum FixFieldValue {
    /// Text.
    String(String),
    /// A signed integer.
    Integer(i64),
    /// An unsigned integer.
    UnsignedInteger(u64),
    /// A decimal number, kept as it was written so that no digit is lost.
    Decimal(String),
    /// A boolean, `Y` or `N` on the wire.
    Boolean(bool),
    /// A single character, kept as text.
    Character(String),
    /// A UTC timestamp, `YYYYMMDD-HH:MM:SS[.sss]`.
    UtcTimestamp(String),
    /// A UTC date, `YYYYMMDD`.
    UtcDate(String),
    /// A UTC time, `HH:MM:SS[.sss]`.
    UtcTime(String),
    /// Bytes.
    Data(Vec<u8>),
    /// Text of a type that is not known.
    Raw(String),
}

/// A typed field value, as plain values.
pub enum FixFieldValueView {
    String(Seq<char>),
    Integer(i64),
    UnsignedInteger(u64),
    Decimal(Seq<char>),
    Boolean(bool),
    Character(Seq<char>),
    UtcTimestamp(Seq<char>),
    UtcDate(Seq<char>),
    UtcTime(Seq<char>),
    Data(Seq<u8>),
    Raw(Seq<char>),
}

impl View for FixFieldValue {
    type V = FixFieldValueView;

    open spec fn view(&self) -> FixFieldValueView {
        match self {
            FixFieldValue::String(s) => FixFieldValueView::String(s@),
            FixFieldValue::Integer(i) => FixFieldValueView::Integer(*i),
            FixFieldValue::UnsignedInteger(u) => FixFieldValueView::UnsignedInteger(*u),
            FixFieldValue::Decimal(s) => FixFieldValueView::Decimal(s@),
            FixFieldValue::Boolean(b) => FixFieldValueView::Boolean(*b),
            FixFieldValue::Character(s) => FixFieldValueView::Character(s@),
            FixFieldValue::UtcTimestamp(s) => FixFieldValueView::UtcTimestamp(s@),
            FixFieldValue::UtcDate(s) => FixFieldValueView::UtcDate(s@),
            FixFieldValue::UtcTime(s) => FixFieldValueView::UtcTime(s@),
            FixFieldValue::Data(d) => FixFieldValueView::Data(d@),
            FixFieldValue::Raw(s) => FixFieldValueView::Raw(s@),
        }
    }
}

impl Clone for FixFieldValue {
    /// A value of the same type with the same content.
    fn clone(&self) -> (r: FixFieldValue)
        ensures
            r@ == self@,
    {
        match self {
            FixFieldValue::String(s) => FixFieldValue::String(s.clone()),
            FixFieldValue::Integer(i) => FixFieldValue::Integer(*i),
            FixFieldValue::UnsignedInteger(u) => FixFieldValue::UnsignedInteger(*u),
            FixFieldValue::Decimal(s) => FixFieldValue::Decimal(s.clone()),
            FixFieldValue::Boolean(b) => FixFieldValue::Boolean(*b),
            FixFieldValue::Character(s) => FixFieldValue::Character(s.clone()),
            FixFieldValue::UtcTimestamp(s) => FixFieldValue::UtcTimestamp(s.clone()),
            FixFieldValue::UtcDate(s) => FixFieldValue::UtcDate(s.clone()),
            FixFieldValue::UtcTime(s) => FixFieldValue::UtcTime(s.clone()),
            FixFieldValue::Data(d) => FixFieldValue::Data(d.clone()),
            FixFieldValue::Raw(s) => FixFieldValue::Raw(s.clone()),
        }
    }
}

/// The text of a value: what it looks like in a `tag=value` field.
pub open spec fn spec_text(value: FixFieldValueView) -> Seq<char> {
    match value {
        FixFieldValueView::String(s) => s,
        FixFieldValueView::Integer(i) => ascii_chars(signed_digits_of(i as int)),
        FixFieldValueView::UnsignedInteger(u) => ascii_chars(digits_of(u as nat)),
        FixFieldValueView::Decimal(s) => s,
        FixFieldValueView::Boolean(b) => if b {
            "Y"@
        } else {
            "N"@
        },
        FixFieldValueView::Character(s) => s,
        FixFieldValueView::UtcTimestamp(s) => s,
        FixFieldValueView::UtcDate(s) => s,
        FixFieldValueView::UtcTime(s) => s,
        FixFieldValueView::Data(d) => lossy_text(d),
        FixFieldValueView::Raw(s) => s,
    }
}

/// The bytes of a value: what it is in a `tag=value` field.
pub open spec fn spec_wire(value: FixFieldValueView) -> Seq<u8> {
    match value {
        FixFieldValueView::String(s) => encode_utf8(s),
        FixFieldValueView::Integer(i) => signed_digits_of(i as int),
        FixFieldValueView::UnsignedInteger(u) => digits_of(u as nat),
        FixFieldValueView::Decimal(s) => encode_utf8(s),
        FixFieldValueView::Boolean(b) => if b {
            seq![0x59u8]
        } else {
            seq![0x4eu8]
        },
        FixFieldValueView::Character(s) => encode_utf8(s),
        FixFieldValueView::UtcTimestamp(s) => encode_utf8(s),
        FixFieldValueView::UtcDate(s) => encode_utf8(s),
        FixFieldValueView::UtcTime(s) => encode_utf8(s),
        FixFieldValueView::Data(d) => d,
        FixFieldValueView::Raw(s) => encode_utf8(s),
    }
}

/// The kinds of value that a type of field can have.
pub enum ValueKind {
    Data,
    Integer,
    UnsignedInteger,
    Decimal,
    Character,
    Boolean,
    UtcTimestamp,
    UtcDate,
    UtcTime,
    String,
}

/// The kind of value that fields of a type have.
pub open spec fn spec_kind(fix_type: FixDataType) -> ValueKind {
    match fix_type {
        FixDataType::Data | FixDataType::XmlData => ValueKind::Data,
        FixDataType::Int => ValueKind::Integer,
        FixDataType::Length
        | FixDataType::NumInGroup
        | FixDataType::SeqNum
        | FixDataType::TagNum
        | FixDataType::DayOfMonth => ValueKind::UnsignedInteger,
        FixDataType::Float
        | FixDataType::Qty
        | FixDataType::Price
        | FixDataType::PriceOffset
        | FixDataType::Amt
        | FixDataType::Percentage => ValueKind::Decimal,
        FixDataType::Char => ValueKind::Character,
        FixDataType::Boolean => ValueKind::Boolean,
        FixDataType::UtcTimestamp | FixDataType::TzTimestamp => ValueKind::UtcTimestamp,
        FixDataType::UtcDateOnly | FixDataType::LocalMktDate => ValueKind::UtcDate,
        FixDataType::UtcTimeOnly | FixDataType::TzTimeOnly => ValueKind::UtcTime,
        _ => ValueKind::String,
    }
}

/// What the bytes of a field of a type are as a typed value, or the text
/// of the complaint.
///
/// Bytes of data are taken as they are. Everything else has to be UTF-8.
/// Integers, decimals, characters and booleans have to be what the type
/// says; dates and times are taken as text.
pub open spec fn spec_from_bytes(value: Seq<u8>, fix_type: FixDataType) -> Result<
    FixFieldValueView,
    Seq<char>,
> {
    let text = decode_utf8(value);
    match spec_kind(fix_type) {
        ValueKind::Data => Ok(FixFieldValueView::Data(value)),
        ValueKind::Integer => if !valid_utf8(value) {
            Err("Invalid UTF-8 for integer field"@)
        } else {
            match spec_parse_signed(value, i64::MIN as int, i64::MAX as int) {
                Some(i) => Ok(FixFieldValueView::Integer(i as i64)),
                None => Err("Invalid integer: "@ + text),
            }
        },
        ValueKind::UnsignedInteger => if !valid_utf8(value) {
            Err("Invalid UTF-8 for unsigned integer field"@)
        } else {
            match spec_parse_unsigned(value, u64::MAX as nat) {
                Some(u) => Ok(FixFieldValueView::UnsignedInteger(u as u64)),
                None => Err("Invalid unsigned integer: "@ + text),
            }
        },
        ValueKind::Decimal => if !valid_utf8(value) {
            Err("Invalid UTF-8 for decimal field"@)
        } else if spec_is_decimal(value) {
            Ok(FixFieldValueView::Decimal(text))
        } else {
            Err("Invalid decimal: "@ + text)
        },
        ValueKind::Character => if !valid_utf8(value) {
            Err("Invalid UTF-8 for character field"@)
        } else if value.len() == 1 {
            Ok(FixFieldValueView::Character(text))
        } else {
            Err("Character field must be exactly 1 character, got: "@ + text)
        },
        ValueKind::Boolean => if value == seq![0x59u8] {
            Ok(FixFieldValueView::Boolean(true))
        } else if value == seq![0x4eu8] {
            Ok(FixFieldValueView::Boolean(false))
        } else if !valid_utf8(value) {
            Err("Invalid UTF-8 for boolean field"@)
        } else {
            Err("Boolean field must be Y or N, got: "@ + text)
        },
        ValueKind::UtcTimestamp => if valid_utf8(value) {
            Ok(FixFieldValueView::UtcTimestamp(text))
        } else {
            Err("Invalid UTF-8 for timestamp field"@)
        },
        ValueKind::UtcDate => if valid_utf8(value) {
            Ok(FixFieldValueView::UtcDate(text))
        } else {
            Err("Invalid UTF-8 for date field"@)
        },
        ValueKind::UtcTime => if valid_utf8(value) {
            Ok(FixFieldValueView::UtcTime(text))
        } else {
            Err("Invalid UTF-8 for time field"@)
        },
        ValueKind::String => if valid_utf8(value) {
            Ok(FixFieldValueView::String(text))
        } else {
            Err("Invalid UTF-8 for string field"@)
        },
    }
}

/// Why the bytes of a field give no typed value with the help of a
/// schema.
#[derive(Debug, Clone, PartialEq, Eq)]
pub enum SchemaError {
    /// The schema does not know the tag.
    UnknownTag { tag: u16 },
    /// The bytes are no value of the field's type; the text says why.
    InvalidValue { reason: String },
}

/// The typed value that a text stands for where nothing says of what type
/// it is, given what is known of it as a date or time.
///
/// An integer is signed where the text starts with `-` and unsigned
/// otherwise. `Y` and `N` are booleans, any other text of one byte is a
/// character. Then come timestamps, dates of eight bytes and times of
/// day. Everything else is text.
pub open spec fn spec_from_string(text: Seq<char>, probes: TimeProbes) -> FixFieldValueView {
    let bytes = encode_utf8(text);
    let starts_with_minus = bytes.len() > 0 && bytes[0] == 0x2d;
    if starts_with_minus && spec_parse_signed(bytes, i64::MIN as int, i64::MAX as int) is Some {
        FixFieldValueView::Integer(
            spec_parse_signed(bytes, i64::MIN as int, i64::MAX as int)->Some_0 as i64,
        )
    } else if !starts_with_minus && spec_parse_unsigned(bytes, u64::MAX as nat) is Some {
        FixFieldValueView::UnsignedInteger(spec_parse_unsigned(bytes, u64::MAX as nat)->Some_0 as u64)
    } else if bytes == seq![0x59u8] {
        FixFieldValueView::Boolean(true)
    } else if bytes == seq![0x4eu8] {
        FixFieldValueView::Boolean(false)
    } else if bytes.len() == 1 {
        FixFieldValueView::Character(text)
    } else if probes.timestamp {
        FixFieldValueView::UtcTimestamp(text)
    } else if bytes.len() == 8 && probes.date {
        FixFieldValueView::UtcDate(text)
    } else if probes.time {
        FixFieldValueView::UtcTime(text)
    } else {
        FixFieldValueView::String(text)
    }
}

impl FixFieldValue {
    /// Makes a typed value of a text of which nothing but the text is
    /// known: the best type that the text fits.
    pub fn from_string(s: String) -> (r: FixFieldValue)
        ensures
            r@ == spec_from_string(
                s@,
                TimeProbes {
                    timestamp: spec_is_timestamp(s@),
                    date: spec_is_date(s@),
                    time: spec_is_time(s@),
                },
            ),
    {
        let probes: TimeProbes = probe_times(s.as_str());
        FixFieldValue::from_string_with(s, probes)
    }

    /// Makes a typed value of a text, given what is known of the text as a
    /// date or time.
    pub fn from_string_with(s: String, probes: TimeProbes) -> (r: FixFieldValue)
        ensures
            r@ == spec_from_string(s@, probes),
    {
        let bytes: &[u8] = s.as_str().as_bytes();
        proof {
            if bytes@.len() == 1 {
                assert(bytes@ =~= seq![bytes@[0]]);
            }
        }
        if bytes.len() > 0 && bytes[0] == 0x2d {
            // A number below zero can only be a signed integer.
            match parse_signed(bytes, i64::MIN, i64::MAX) {
                Some(i) => {
                    return FixFieldValue::Integer(i);
                },
                None => {},
            }
        } else {
            // Any other number is taken as unsigned.
            match parse_unsigned(bytes, u64::MAX) {
                Some(u) => {
                    return FixFieldValue::UnsignedInteger(u);
                },
                None => {},
            }
        }
        if bytes.len() == 1 && bytes[0] == 0x59 {
            return FixFieldValue::Boolean(true);
        }
        if bytes.len() == 1 && bytes[0] == 0x4e {
            return FixFieldValue::Boolean(false);
        }
        if bytes.len() == 1 {
            return FixFieldValue::Character(s);
        }
        if probes.timestamp {
            return FixFieldValue::UtcTimestamp(s);
        }
        if bytes.len() == 8 && probes.date {
            return FixFieldValue::UtcDate(s);
        }
        if probes.time {
            return FixFieldValue::UtcTime(s);
        }
        FixFieldValue::String(s)
    }

    /// The value as text, the way it stands in a `tag=value` field. Bytes
    /// of data that are no text come out with replacement characters.
    pub fn to_string(&self) -> (r: String)
        ensures
            r@ == spec_text(self@),
    {
        match self {
            FixFieldValue::String(s) => s.clone(),
            FixFieldValue::Integer(i) => signed_to_string(*i),
            FixFieldValue::UnsignedInteger(u) => unsigned_to_string(*u),
            FixFieldValue::Decimal(d) => d.clone(),
            FixFieldValue::Boolean(b) => if *b {
                String::from_str("Y")
            } else {
                String::from_str("N")
            },
            FixFieldValue::Character(c) => c.clone(),
            FixFieldValue::UtcTimestamp(ts) => ts.clone(),
            FixFieldValue::UtcDate(date) => date.clone(),
            FixFieldValue::UtcTime(time) => time.clone(),
            FixFieldValue::Data(data) => string_from_utf8_lossy(data.as_slice()),
            FixFieldValue::Raw(raw) => raw.clone(),
        }
    }

    /// The value as bytes, the way it stands in a `tag=value` field.
    pub fn as_bytes(&self) -> (r: Vec<u8>)
        ensures
            r@ == spec_wire(self@),
    {
        match self {
            FixFieldValue::String(s) => slice_to_vec(s.as_str().as_bytes()),
            FixFieldValue::Integer(i) => {
                let mut bytes: Vec<u8> = Vec::new();
                render_signed(*i, &mut bytes);
                assert(bytes@ =~= signed_digits_of(*i as int));
                bytes
            },
            FixFieldValue::UnsignedInteger(u) => {
                let mut bytes: Vec<u8> = Vec::new();
                render_decimal(*u, &mut bytes);
                assert(bytes@ =~= digits_of(*u as nat));
                bytes
            },
            FixFieldValue::Decimal(d) => slice_to_vec(d.as_str().as_bytes()),
            FixFieldValue::Boolean(b) => {
                let mut bytes: Vec<u8> = Vec::new();
                if *b {
                    bytes.push(0x59);
                } else {
                    bytes.push(0x4e);
                }
                assert(bytes@ =~= spec_wire(self@));
                bytes
            },
            FixFieldValue::Character(c) => slice_to_vec(c.as_str().as_bytes()),
            FixFieldValue::UtcTimestamp(ts) => slice_to_vec(ts.as_str().as_bytes()),
            FixFieldValue::UtcDate(date) => slice_to_vec(date.as_str().as_bytes()),
            FixFieldValue::UtcTime(time) => slice_to_vec(time.as_str().as_bytes()),
            FixFieldValue::Data(data) => data.clone(),
            FixFieldValue::Raw(raw) => slice_to_vec(raw.as_str().as_bytes()),
        }
    }

    /// Reads the bytes of a field of type `fix_type` as a typed value.
    /// Bytes of data never become text on the way.
    pub fn from_bytes_with_type(value: &[u8], fix_type: FixDataType) -> (r: Result<
        FixFieldValue,
        String,
    >)
        ensures
            match spec_from_bytes(value@, fix_type) {
                Ok(v) => r matches Ok(got) && got@ == v,
                Err(e) => r matches Err(got) && got@ == e,
            },
    {
        match fix_type {
            // Data first: it need be no text.
            FixDataType::Data | FixDataType::XmlData => Ok(
                FixFieldValue::Data(slice_to_vec(value)),
            ),
            FixDataType::Int => {
                let s: String = match string_from_utf8(value) {
                    Some(s) => s,
                    None => {
                        return Err(String::from_str("Invalid UTF-8 for integer field"));
                    },
                };
                match parse_signed(value, i64::MIN, i64::MAX) {
                    Some(i) => Ok(FixFieldValue::Integer(i)),
                    None => Err(complaint("Invalid integer: ", s)),
                }
            },
            FixDataType::Length
            | FixDataType::NumInGroup
            | FixDataType::SeqNum
            | FixDataType::TagNum
            | FixDataType::DayOfMonth => {
                let s: String = match string_from_utf8(value) {
                    Some(s) => s,
                    None => {
                        return Err(String::from_str("Invalid UTF-8 for unsigned integer field"));
                    },
                };
                match parse_unsigned(value, u64::MAX) {
                    Some(u) => Ok(FixFieldValue::UnsignedInteger(u)),
                    None => Err(complaint("Invalid unsigned integer: ", s)),
                }
            },
            FixDataType::Float
            | FixDataType::Qty
            | FixDataType::Price
            | FixDataType::PriceOffset
            | FixDataType::Amt
            | FixDataType::Percentage => {
                let s: String = match string_from_utf8(value) {
                    Some(s) => s,
                    None => {
                        return Err(String::from_str("Invalid UTF-8 for decimal field"));
                    },
                };
                // The number is kept as it was written.
                if is_decimal(value) {
                    Ok(FixFieldValue::Decimal(s))
                } else {
                    Err(complaint("Invalid decimal: ", s))
                }
            },
            FixDataType::Char => {
                let s: String = match string_from_utf8(value) {
                    Some(s) => s,
                    None => {
                        return Err(String::from_str("Invalid UTF-8 for character field"));
                    },
                };
                if value.len() != 1 {
                    return Err(
                        complaint("Character field must be exactly 1 character, got: ", s),
                    );
                }
                Ok(FixFieldValue::Character(s))
            },
            FixDataType::Boolean => {
                proof {
                    if value@.len() == 1 {
                        assert(value@ =~= seq![value@[0]]);
                    }
                }
                if value.len() == 1 && value[0] == 0x59 {
                    Ok(FixFieldValue::Boolean(true))
                } else if value.len() == 1 && value[0] == 0x4e {
                    Ok(FixFieldValue::Boolean(false))
                } else {
                    match string_from_utf8(value) {
                        Some(s) => Err(complaint("Boolean field must be Y or N, got: ", s)),
                        None => Err(String::from_str("Invalid UTF-8 for boolean field")),
                    }
                }
            },
            FixDataType::UtcTimestamp | FixDataType::TzTimestamp => {
                match string_from_utf8(value) {
                    Some(s) => Ok(FixFieldValue::UtcTimestamp(s)),
                    None => Err(String::from_str("Invalid UTF-8 for timestamp field")),
                }
            },
            FixDataType::UtcDateOnly | FixDataType::LocalMktDate => {
                match string_from_utf8(value) {
                    Some(s) => Ok(FixFieldValue::UtcDate(s)),
                    None => Err(String::from_str("Invalid UTF-8 for date field")),
                }
            },
            FixDataType::UtcTimeOnly | FixDataType::TzTimeOnly => {
                match string_from_utf8(value) {
                    Some(s) => Ok(FixFieldValue::UtcTime(s)),
                    None => Err(String::from_str("Invalid UTF-8 for time field")),
                }
            },
            // Every other type is text.
            _ => {
                match string_from_utf8(value) {
                    Some(s) => Ok(FixFieldValue::String(s)),
                    None => Err(String::from_str("Invalid UTF-8 for string field")),
                }
            },
        }
    }

    /// Reads the bytes of the field with `tag` as a typed value of the
    /// type that `schema` gives the field.
    pub fn from_bytes_with_schema(value: &[u8], tag: u16, schema: &Schema) -> (r: Result<
        FixFieldValue,
        SchemaError,
    >)
        ensures
            !schema.types().contains_key(tag) ==> (r matches Err(
                SchemaError::UnknownTag { tag: t },
            ) && t == tag),
            schema.types().contains_key(tag) ==> match spec_from_bytes(
                value@,
                schema.types()[tag].fix_type,
            ) {
                Ok(v) => r matches Ok(got) && got@ == v,
                Err(e) => r matches Err(SchemaError::InvalidValue { reason }) && reason@ == e,
            },
    {
        let field_info: &FieldTypeInfo = match schema.get_field_type(tag) {
            Some(info) => info,
            None => {
                return Err(SchemaError::UnknownTag { tag });
            },
        };
        match FixFieldValue::from_bytes_with_type(value, field_info.fix_type) {
            Ok(v) => Ok(v),
            Err(reason) => Err(SchemaError::InvalidValue { reason }),
        }
    }
}

/// One field with a typed value.
#[derive(Debug, Clone, PartialEq)]
pub struct Field {
    /// The tag of the field.
    pub tag: u32,
    /// The value of the field.
    pub value: FixFieldValue,
}

/// A message, reduced to what every message has and a list of further
/// fields.
#[derive(Debug, Clone, PartialEq)]
pub struct FixMessage {
    /// `MsgType(35)`.
    pub msg_type: String,
    /// `SenderCompID(49)`.
    pub sender_comp_id: String,
    /// `TargetCompID(56)`.
    pub target_comp_id: String,
    /// `MsgSeqNum(34)`.
    pub msg_seq_num: u64,
    /// The other fields, in their order.
    pub fields: Vec<Field>,
}

/// A type whose values are typed field values of one kind.
pub trait ToFixFieldValue {
    /// The typed field value that a value stands for.
    spec fn spec_fix_field_value(&self) -> FixFieldValueView;

    /// Makes the typed field value.
    fn to_fix_field_value(&self) -> (r: FixFieldValue)
        ensures
            r@ == self.spec_fix_field_value(),
    ;
}

impl ToFixFieldValue for i32 {
    open spec fn spec_fix_field_value(&self) -> FixFieldValueView {
        FixFieldValueView::Integer(*self as i64)
    }

    fn to_fix_field_value(&self) -> (r: FixFieldValue) {
        FixFieldValue::Integer(*self as i64)
    }
}

impl ToFixFieldValue for i64 {
    open spec fn spec_fix_field_value(&self) -> FixFieldValueView {
        FixFieldValueView::Integer(*self)
    }

    fn to_fix_field_value(&self) -> (r: FixFieldValue) {
        FixFieldValue::Integer(*self)
    }
}

impl ToFixFieldValue for u32 {
    open spec fn spec_fix_field_value(&self) -> FixFieldValueView {
        FixFieldValueView::UnsignedInteger(*self as u64)
    }

    fn to_fix_field_value(&self) -> (r: FixFieldValue) {
        FixFieldValue::UnsignedInteger(*self as u64)
    }
}

impl ToFixFieldValue for u64 {
    open spec fn spec_fix_field_value(&self) -> FixFieldValueView {
        FixFieldValueView::UnsignedInteger(*self)
    }

    fn to_fix_field_value(&self) -> (r: FixFieldValue) {
        FixFieldValue::UnsignedInteger(*self)
    }
}

impl ToFixFieldValue for bool {
    open spec fn spec_fix_field_value(&self) -> FixFieldValueView {
        FixFieldValueView::Boolean(*self)
    }

    fn to_fix_field_value(&self) -> (r: FixFieldValue) {
        FixFieldValue::Boolean(*self)
    }
}

impl ToFixFieldValue for &str {
    open spec fn spec_fix_field_value(&self) -> FixFieldValueView {
        FixFieldValueView::String(self@)
    }

    fn to_fix_field_value(&self) -> (r: FixFieldValue) {
        FixFieldValue::String(String::from_str(*self))
    }
}

impl ToFixFieldValue for String {
    open spec fn spec_fix_field_value(&self) -> FixFieldValueView {
        FixFieldValueView::String(self@)
    }

    fn to_fix_field_value(&self) -> (r: FixFieldValue) {
        FixFieldValue::String(self.clone())
    }
}

} // verus!
