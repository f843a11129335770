//! Codecs for the FIX family of financial messaging protocols.
//!
//! The centre of the crate is [`tagvalue`], a decoder for the classic
//! `tag=value` encoding. It frames a message, walks its fields, assigns every
//! field to the root of the message or to an entry of a repeating group, and
//! offers random and ordered access to the result. Every function is verified
//! against a mathematical model of the wire format, and
//! [`tagvalue::laws`] proves what holds of every message.
//!
//! Around it stand
//! - [`dict`], the part of a dictionary that the codecs consult,
//! - [`traits`], the interfaces that the codecs share, with the reading and
//!   writing of plain values,
//! - [`validation`], the validation of decoded messages,
//! - [`asn1`], typed field values, messages held field by field, and what
//!   the ASN.1 codec decides before and after it calls the ASN.1 library,
//! - [`decimal_field`], decimal numbers as values of fields, and
//! - [`text`], numbers as text and text from bytes.

pub mod asn1;
pub mod decimal_field;
pub mod dict;
pub mod tagvalue;
pub mod text;
pub mod traits;
pub mod validation;

pub use dict::{
    Dictionary, FieldDefinition, FixDatatype, LayoutItem, MessageDefinition, TagU32,
};
pub use traits::{
    Buffer, FieldMap, FieldType, FieldValueError, GetConfig, InvalidInt, InvalidUtf8,
    RepeatingGroup, StreamingDecoder,
};
