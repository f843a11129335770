//! Counting what an encoder or decoder did with one message.
//!
//! A tracker is made when the work starts and completed when it ends. What
//! it gives then is a report in plain values; taking the time and writing
//! the log is left to the caller.
use crate::text::str_eq;
use vstd::prelude::*;

verus! {

/// The name of the span of an encoding with BER.
pub const ENCODE_BER_SPAN: &'static str = "asn1.encode.BER";

/// The name of the span of an encoding with DER.
pub const ENCODE_DER_SPAN: &'static str = "asn1.encode.DER";

/// The name of the span of an encoding with OER.
pub const ENCODE_OER_SPAN: &'static str = "asn1.encode.OER";

/// The name of the span of an encoding with PER.
pub const ENCODE_PER_SPAN: &'static str = "asn1.encode.PER";

/// The name of the span of an encoding with XER.
pub const ENCODE_XER_SPAN: &'static str = "asn1.encode.XER";

/// The name of the span of an encoding with JER.
pub const ENCODE_JER_SPAN: &'static str = "asn1.encode.JER";

/// The name of the span of a decoding with BER.
pub const DECODE_BER_SPAN: &'static str = "asn1.decode.BER";

/// The name of the span of a decoding with DER.
pub const DECODE_DER_SPAN: &'static str = "asn1.decode.DER";

/// The name of the span of a decoding with OER.
pub const DECODE_OER_SPAN: &'static str = "asn1.decode.OER";

/// The name of the span of a decoding with PER.
pub const DECODE_PER_SPAN: &'static str = "asn1.decode.PER";

/// The name of the span of a decoding with XER.
pub const DECODE_XER_SPAN: &'static str = "asn1.decode.XER";

/// The name of the span of a decoding with JER.
pub const DECODE_JER_SPAN: &'static str = "asn1.decode.JER";

/// The name of the span of a validation against the schema.
pub const SCHEMA_VALIDATE_SPAN: &'static str = "asn1.schema.validate";

/// The name of the span of a lookup in the schema.
pub const SCHEMA_LOOKUP_SPAN: &'static str = "asn1.schema.lookup";

/// The name of the span of the compilation of a schema.
pub const SCHEMA_COMPILE_SPAN: &'static str = "asn1.schema.compile";

/// The name of the span of the transformation of a schema.
pub const SCHEMA_TRANSFORM_SPAN: &'static str = "asn1.schema.transform";

/// The name of the span of the parsing of a schema.
pub const SCHEMA_PARSE_SPAN: &'static str = "asn1.schema.parse";

/// The name of the span of the serialization of a schema.
pub const SCHEMA_SERIALIZE_SPAN: &'static str = "asn1.schema.serialize";

/// The name of the span of an encoding with rules that have no span of
/// their own.
pub const ENCODE_UNKNOWN_SPAN: &'static str = "asn1.encode.unknown";

/// The name of the span of a decoding with rules that have no span of
/// their own.
pub const DECODE_UNKNOWN_SPAN: &'static str = "asn1.decode.unknown";

/// The name of the span of an operation on the schema that has no span of
/// its own.
pub const SCHEMA_UNKNOWN_SPAN: &'static str = "asn1.schema.unknown";

/// The name of the span of an encoding with the rules of a name.
pub open spec fn spec_encoding_span(encoding_rule: Seq<char>) -> &'static str {
    if encoding_rule == "BER"@ {
        ENCODE_BER_SPAN
    } else if encoding_rule == "DER"@ {
        ENCODE_DER_SPAN
    } else if encoding_rule == "OER"@ {
        ENCODE_OER_SPAN
    } else if encoding_rule == "PER"@ {
        ENCODE_PER_SPAN
    } else if encoding_rule == "XER"@ {
        ENCODE_XER_SPAN
    } else if encoding_rule == "JER"@ {
        ENCODE_JER_SPAN
    } else {
        ENCODE_UNKNOWN_SPAN
    }
}

/// The name of the span of a decoding with the rules of a name.
pub open spec fn spec_decoding_span(encoding_rule: Seq<char>) -> &'static str {
    if encoding_rule == "BER"@ {
        DECODE_BER_SPAN
    } else if encoding_rule == "DER"@ {
        DECODE_DER_SPAN
    } else if encoding_rule == "OER"@ {
        DECODE_OER_SPAN
    } else if encoding_rule == "PER"@ {
        DECODE_PER_SPAN
    } else if encoding_rule == "XER"@ {
        DECODE_XER_SPAN
    } else if encoding_rule == "JER"@ {
        DECODE_JER_SPAN
    } else {
        DECODE_UNKNOWN_SPAN
    }
}

/// The name of the span of an operation on the schema.
pub open spec fn spec_schema_span(operation: Seq<char>) -> &'static str {
    if operation == "validate"@ {
        SCHEMA_VALIDATE_SPAN
    } else if operation == "lookup"@ {
        SCHEMA_LOOKUP_SPAN
    } else if operation == "compile"@ {
        SCHEMA_COMPILE_SPAN
    } else if operation == "transform"@ {
        SCHEMA_TRANSFORM_SPAN
    } else if operation == "parse"@ {
        SCHEMA_PARSE_SPAN
    } else if operation == "serialize"@ {
        SCHEMA_SERIALIZE_SPAN
    } else {
        SCHEMA_UNKNOWN_SPAN
    }
}

/// The name of the span to open for an encoding with the rules
/// `encoding_rule`. Rules without a span of their own share one.
pub fn encoding_span_name(encoding_rule: &str) -> (r: &'static str)
    ensures
        r == spec_encoding_span(encoding_rule@),
{
    if str_eq(encoding_rule, "BER") {
        ENCODE_BER_SPAN
    } else if str_eq(encoding_rule, "DER") {
        ENCODE_DER_SPAN
    } else if str_eq(encoding_rule, "OER") {
        ENCODE_OER_SPAN
    } else if str_eq(encoding_rule, "PER") {
        ENCODE_PER_SPAN
    } else if str_eq(encoding_rule, "XER") {
        ENCODE_XER_SPAN
    } else if str_eq(encoding_rule, "JER") {
        ENCODE_JER_SPAN
    } else {
        ENCODE_UNKNOWN_SPAN
    }
}

/// The name of the span to open for a decoding with the rules
/// `encoding_rule`. Rules without a span of their own share one.
pub fn decoding_span_name(encoding_rule: &str) -> (r: &'static str)
    ensures
        r == spec_decoding_span(encoding_rule@),
{
    if str_eq(encoding_rule, "BER") {
        DECODE_BER_SPAN
    } else if str_eq(encoding_rule, "DER") {
        DECODE_DER_SPAN
    } else if str_eq(encoding_rule, "OER") {
        DECODE_OER_SPAN
    } else if str_eq(encoding_rule, "PER") {
        DECODE_PER_SPAN
    } else if str_eq(encoding_rule, "XER") {
        DECODE_XER_SPAN
    } else if str_eq(encoding_rule, "JER") {
        DECODE_JER_SPAN
    } else {
        DECODE_UNKNOWN_SPAN
    }
}

/// The name of the span to open for the operation `operation` on the
/// schema. Operations without a span of their own share one.
pub fn schema_span_name(operation: &str) -> (r: &'static str)
    ensures
        r == spec_schema_span(operation@),
{
    if str_eq(operation, "validate") {
        SCHEMA_VALIDATE_SPAN
    } else if str_eq(operation, "lookup") {
        SCHEMA_LOOKUP_SPAN
    } else if str_eq(operation, "compile") {
        SCHEMA_COMPILE_SPAN
    } else if str_eq(operation, "transform") {
        SCHEMA_TRANSFORM_SPAN
    } else if str_eq(operation, "parse") {
        SCHEMA_PARSE_SPAN
    } else if str_eq(operation, "serialize") {
        SCHEMA_SERIALIZE_SPAN
    } else {
        SCHEMA_UNKNOWN_SPAN
    }
}

/// What the encoding of one message took.
#[derive(Debug, Clone, PartialEq, Eq)]
pub struct EncodingReport {
    pub encoding_rule: &'static str,
    pub message_type: String,
    pub field_count: usize,
    pub encoded_size: usize,
}

/// Counts the fields of a message while it is encoded.
#[derive(Debug)]
pub struct EncodingMetrics {
    encoding_rule: &'static str,
    message_type: String,
    field_count: usize,
}

impl EncodingMetrics {
    /// The rules in use.
    pub closed spec fn spec_encoding_rule(&self) -> &'static str {
        self.encoding_rule
    }

    /// The type of the message.
    pub closed spec fn spec_message_type(&self) -> Seq<char> {
        self.message_type@
    }

    /// The number of fields that were recorded.
    pub closed spec fn spec_field_count(&self) -> usize {
        self.field_count
    }

    /// A tracker for a message of `message_type` that is encoded with
    /// `encoding_rule`. No field is counted yet.
    pub fn new(encoding_rule: &'static str, message_type: String) -> (r: EncodingMetrics)
        ensures
            r.spec_encoding_rule() == encoding_rule,
            r.spec_message_type() == message_type@,
            r.spec_field_count() == 0,
    {
        EncodingMetrics { encoding_rule, message_type, field_count: 0 }
    }

    /// Counts one more field. The count stays where it is once it has
    /// reached the largest number that it can hold.
    pub fn record_field(&mut self)
        ensures
            final(self).spec_encoding_rule() == old(self).spec_encoding_rule(),
            final(self).spec_message_type() == old(self).spec_message_type(),
            final(self).spec_field_count() == if old(self).spec_field_count() < usize::MAX {
                (old(self).spec_field_count() + 1) as usize
            } else {
                usize::MAX
            },
    {
        if self.field_count < usize::MAX {
            self.field_count = self.field_count + 1;
        }
    }

    /// Ends the tracking: the message took `encoded_size` bytes.
    pub fn complete(self, encoded_size: usize) -> (r: EncodingReport)
        ensures
            r.encoding_rule == self.spec_encoding_rule(),
            r.message_type@ == self.spec_message_type(),
            r.field_count == self.spec_field_count(),
            r.encoded_size == encoded_size,
    {
        EncodingReport {
            encoding_rule: self.encoding_rule,
            message_type: self.message_type,
            field_count: self.field_count,
            encoded_size,
        }
    }

    /// The rules in use.
    pub fn encoding_rule(&self) -> (r: &'static str)
        ensures
            r == self.spec_encoding_rule(),
    {
        self.encoding_rule
    }

    /// The type of the message.
    pub fn message_type(&self) -> (r: &str)
        ensures
            r@ == self.spec_message_type(),
    {
        self.message_type.as_str()
    }

    /// The number of fields that were recorded.
    pub fn field_count(&self) -> (r: usize)
        ensures
            r == self.spec_field_count(),
    {
        self.field_count
    }
}

/// What the decoding of one message took.
#[derive(Debug, Clone, PartialEq, Eq)]
pub struct DecodingReport {
    pub encoding_rule: &'static str,
    pub message_type: String,
    pub field_count: usize,
    pub input_size: usize,
}

/// Keeps what is known of a message while it is decoded.
#[derive(Debug)]
pub struct DecodingMetrics {
    encoding_rule: &'static str,
    input_size: usize,
}

impl DecodingMetrics {
    /// The rules in use.
    pub closed spec fn spec_encoding_rule(&self) -> &'static str {
        self.encoding_rule
    }

    /// The number of bytes that are decoded.
    pub closed spec fn spec_input_size(&self) -> usize {
        self.input_size
    }

    /// A tracker for `input_size` bytes that are decoded with
    /// `encoding_rule`.
    pub fn new(encoding_rule: &'static str, input_size: usize) -> (r: DecodingMetrics)
        ensures
            r.spec_encoding_rule() == encoding_rule,
            r.spec_input_size() == input_size,
    {
        DecodingMetrics { encoding_rule, input_size }
    }

    /// Ends the tracking: the bytes were a message of `message_type` with
    /// `field_count` fields.
    pub fn complete(self, message_type: &str, field_count: usize) -> (r: DecodingReport)
        ensures
            r.encoding_rule == self.spec_encoding_rule(),
            r.message_type@ == message_type@,
            r.field_count == field_count,
            r.input_size == self.spec_input_size(),
    {
        DecodingReport {
            encoding_rule: self.encoding_rule,
            message_type: message_type.to_owned(),
            field_count,
            input_size: self.input_size,
        }
    }

    /// The rules in use.
    pub fn encoding_rule(&self) -> (r: &'static str)
        ensures
            r == self.spec_encoding_rule(),
    {
        self.encoding_rule
    }

    /// The number of bytes that are decoded.
    pub fn input_size(&self) -> (r: usize)
        ensures
            r == self.spec_input_size(),
    {
        self.input_size
    }
}

} // verus!
