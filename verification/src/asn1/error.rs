//! The errors of the ASN.1 codec.
use crate::tagvalue::digits::digits_of;
use crate::text::{ascii_chars, ascii_to_string, unsigned_to_string};
use vstd::prelude::*;
use vstd::std_specs::convert::FromSpecImpl;
use vstd::string::StringExecFns;

verus! {

/// Why a message cannot be encoded.
#[derive(Debug, Clone, PartialEq, Eq)]
pub enum EncodeError {
    /// The value of a field cannot be encoded.
    InvalidFieldValue {
        /// The tag of the field.
        tag: u32,
        /// Why the value is invalid.
        reason: String,
    },
    /// The message is larger than the configuration allows.
    MessageTooLarge {
        /// The size of the message.
        size: usize,
        /// The largest size that is allowed.
        max_size: usize,
    },
    /// A required field is missing.
    RequiredFieldMissing {
        /// The tag of the field.
        tag: u32,
        /// The name of the field.
        name: String,
    },
    /// The encoding rules do not serve the type of message.
    UnsupportedEncodingRule {
        /// The name of the rules.
        rule: &'static str,
        /// The type of the message.
        msg_type: String,
    },
    /// The buffer is too small.
    BufferCapacityExceeded {
        /// The number of bytes that are needed.
        needed: usize,
        /// The number of bytes that are there.
        available: usize,
    },
    /// The message does not fit the schema.
    SchemaMismatch(String),
    /// The ASN.1 library failed.
    Internal(String),
}

/// Why bytes cannot be decoded.
#[derive(Debug, Clone, PartialEq, Eq)]
pub enum DecodeError {
    /// A tag of ASN.1 is invalid.
    InvalidTag {
        /// The tag.
        tag: u8,
        /// Where it stands.
        offset: usize,
    },
    /// The input ends too early.
    UnexpectedEof {
        /// Where it ends.
        offset: usize,
        /// The number of bytes that are missing.
        needed: usize,
    },
    /// A length is not encoded as it has to be.
    InvalidLength {
        /// Where it stands.
        offset: usize,
    },
    /// A value breaks a constraint.
    ConstraintViolation {
        /// The name of the field.
        field: String,
        /// What is wrong.
        reason: String,
    },
    /// The checksum is not what the bytes add up to.
    ChecksumMismatch {
        /// The checksum of the bytes.
        expected: u32,
        /// The checksum in the message.
        actual: u32,
    },
    /// The structures are nested too deeply.
    RecursionDepthExceeded {
        /// The largest depth that is allowed.
        max_depth: u32,
    },
    /// A text is no UTF-8.
    InvalidUtf8 {
        /// Where the text stands.
        offset: usize,
    },
    /// The encoding rules cannot be decoded.
    UnsupportedEncodingRule(&'static str),
    /// The encoding rules need a schema, and there is none.
    SchemaRequired {
        /// The name of the rules.
        encoding_rule: &'static str,
    },
    /// The message is larger than the configuration allows.
    MessageTooLarge {
        /// The size of the message.
        size: usize,
        /// The largest size that is allowed.
        max_size: usize,
    },
    /// The ASN.1 library failed.
    Internal(String),
}

/// An error of the ASN.1 codec.
#[derive(Debug, Clone, PartialEq, Eq)]
pub enum Error {
    /// Encoding failed.
    Encode(EncodeError),
    /// Decoding failed.
    Decode(DecodeError),
    /// The schema is at fault.
    Schema(String),
    /// The configuration is at fault.
    Config(String),
    /// The ASN.1 library failed.
    Asn1(String),
}

impl From<EncodeError> for Error {
    fn from(err: EncodeError) -> (r: Error)
        ensures
            r == Error::Encode(err),
    {
        Error::Encode(err)
    }
}

impl FromSpecImpl<EncodeError> for Error {
    open spec fn obeys_from_spec() -> bool {
        true
    }

    open spec fn from_spec(err: EncodeError) -> Error {
        Error::Encode(err)
    }
}

impl From<DecodeError> for Error {
    fn from(err: DecodeError) -> (r: Error)
        ensures
            r == Error::Decode(err),
    {
        Error::Decode(err)
    }
}

impl FromSpecImpl<DecodeError> for Error {
    open spec fn obeys_from_spec() -> bool {
        true
    }

    open spec fn from_spec(err: DecodeError) -> Error {
        Error::Decode(err)
    }
}

/// The text of a number.
pub open spec fn spec_number(n: nat) -> Seq<char> {
    ascii_chars(digits_of(n))
}

/// The text of the error of an encoder.
pub open spec fn spec_encode_error_text(e: EncodeError) -> Seq<char> {
    match e {
        EncodeError::InvalidFieldValue { tag, reason } => "Invalid field value for tag "@
            + spec_number(tag as nat) + ": "@ + reason@,
        EncodeError::MessageTooLarge { size, max_size } => "Message size "@ + spec_number(
            size as nat,
        ) + " exceeds maximum "@ + spec_number(max_size as nat),
        EncodeError::RequiredFieldMissing { tag, name } => "Required field "@ + spec_number(
            tag as nat,
        ) + " ("@ + name@ + ") is missing"@,
        EncodeError::UnsupportedEncodingRule { rule, msg_type } => "Encoding rule "@ + rule@
            + " not supported for message type "@ + msg_type@,
        EncodeError::BufferCapacityExceeded { needed, available } =>
            "Buffer capacity exceeded: needed "@ + spec_number(needed as nat) + ", available "@
            + spec_number(available as nat),
        EncodeError::SchemaMismatch(s) => "Schema mismatch: "@ + s@,
        EncodeError::Internal(s) => "Internal ASN.1 encoding error: "@ + s@,
    }
}

impl EncodeError {
    /// The text of the error.
    pub fn to_string(&self) -> (r: String)
        ensures
            r@ == spec_encode_error_text(*self),
    {
        match self {
            EncodeError::InvalidFieldValue { tag, reason } => {
                String::from_str("Invalid field value for tag ").concat(
                    unsigned_to_string(*tag as u64).as_str(),
                ).concat(": ").concat(reason.as_str())
            },
            EncodeError::MessageTooLarge { size, max_size } => {
                String::from_str("Message size ").concat(
                    unsigned_to_string(*size as u64).as_str(),
                ).concat(" exceeds maximum ").concat(unsigned_to_string(*max_size as u64).as_str())
            },
            EncodeError::RequiredFieldMissing { tag, name } => {
                String::from_str("Required field ").concat(
                    unsigned_to_string(*tag as u64).as_str(),
                ).concat(" (").concat(name.as_str()).concat(") is missing")
            },
            EncodeError::UnsupportedEncodingRule { rule, msg_type } => {
                String::from_str("Encoding rule ").concat(*rule).concat(
                    " not supported for message type ",
                ).concat(msg_type.as_str())
            },
            EncodeError::BufferCapacityExceeded { needed, available } => {
                String::from_str("Buffer capacity exceeded: needed ").concat(
                    unsigned_to_string(*needed as u64).as_str(),
                ).concat(", available ").concat(unsigned_to_string(*available as u64).as_str())
            },
            EncodeError::SchemaMismatch(s) => String::from_str("Schema mismatch: ").concat(
                s.as_str(),
            ),
            EncodeError::Internal(s) => String::from_str(
                "Internal ASN.1 encoding error: ",
            ).concat(s.as_str()),
        }
    }
}

/// The upper-case hexadecimal digit of a number below 16.
pub open spec fn spec_hex_digit(n: u8) -> u8 {
    if n < 10 {
        (0x30 + n) as u8
    } else {
        (0x41 + n - 10) as u8
    }
}

/// A byte in two upper-case hexadecimal digits.
pub open spec fn spec_hex(b: u8) -> Seq<char> {
    ascii_chars(seq![spec_hex_digit(b / 16), spec_hex_digit(b % 16)])
}

/// Writes a byte in two upper-case hexadecimal digits.
pub fn hex(b: u8) -> (r: String)
    ensures
        r@ == spec_hex(b),
{
    let hi: u8 = b / 16;
    let lo: u8 = b % 16;
    let mut digits: Vec<u8> = Vec::new();
    digits.push(
        if hi < 10 {
            0x30 + hi
        } else {
            0x41 + hi - 10
        },
    );
    digits.push(
        if lo < 10 {
            0x30 + lo
        } else {
            0x41 + lo - 10
        },
    );
    assert(digits@ =~= seq![spec_hex_digit(b / 16), spec_hex_digit(b % 16)]);
    ascii_to_string(digits.as_slice())
}

/// The text of the error of a decoder.
pub open spec fn spec_decode_error_text(e: DecodeError) -> Seq<char> {
    match e {
        DecodeError::InvalidTag { tag, offset } => "Invalid ASN.1 tag "@ + spec_hex(tag)
            + " at offset "@ + spec_number(offset as nat),
        DecodeError::UnexpectedEof { offset, needed } => "Unexpected end of input at offset "@
            + spec_number(offset as nat) + ", needed "@ + spec_number(needed as nat)
            + " more bytes"@,
        DecodeError::InvalidLength { offset } => "Invalid length encoding at offset "@
            + spec_number(offset as nat),
        DecodeError::ConstraintViolation { field, reason } =>
            "Value constraint violation for field "@ + field@ + ": "@ + reason@,
        DecodeError::ChecksumMismatch { expected, actual } =>
            "Checksum validation failed: expected "@ + spec_number(expected as nat) + ", got "@
            + spec_number(actual as nat),
        DecodeError::RecursionDepthExceeded { max_depth } => "Maximum recursion depth "@
            + spec_number(max_depth as nat) + " exceeded"@,
        DecodeError::InvalidUtf8 { offset } => "Invalid UTF-8 in string field at offset "@
            + spec_number(offset as nat),
        DecodeError::UnsupportedEncodingRule(rule) => "Unsupported encoding rule for decoding: "@
            + rule@,
        DecodeError::SchemaRequired { encoding_rule } => "Schema required for "@ + encoding_rule@
            + " decoding but not provided"@,
        DecodeError::MessageTooLarge { size, max_size } => "Message size "@ + spec_number(
            size as nat,
        ) + " exceeds maximum "@ + spec_number(max_size as nat),
        DecodeError::Internal(s) => "Internal ASN.1 decoding error: "@ + s@,
    }
}

impl DecodeError {
    /// The text of the error.
    pub fn to_string(&self) -> (r: String)
        ensures
            r@ == spec_decode_error_text(*self),
    {
        match self {
            DecodeError::InvalidTag { tag, offset } => {
                String::from_str("Invalid ASN.1 tag ").concat(hex(*tag).as_str()).concat(
                    " at offset ",
                ).concat(unsigned_to_string(*offset as u64).as_str())
            },
            DecodeError::UnexpectedEof { offset, needed } => {
                String::from_str("Unexpected end of input at offset ").concat(
                    unsigned_to_string(*offset as u64).as_str(),
                ).concat(", needed ").concat(unsigned_to_string(*needed as u64).as_str()).concat(
                    " more bytes",
                )
            },
            DecodeError::InvalidLength { offset } => {
                String::from_str("Invalid length encoding at offset ").concat(
                    unsigned_to_string(*offset as u64).as_str(),
                )
            },
            DecodeError::ConstraintViolation { field, reason } => {
                String::from_str("Value constraint violation for field ").concat(
                    field.as_str(),
                ).concat(": ").concat(reason.as_str())
            },
            DecodeError::ChecksumMismatch { expected, actual } => {
                String::from_str("Checksum validation failed: expected ").concat(
                    unsigned_to_string(*expected as u64).as_str(),
                ).concat(", got ").concat(unsigned_to_string(*actual as u64).as_str())
            },
            DecodeError::RecursionDepthExceeded { max_depth } => {
                String::from_str("Maximum recursion depth ").concat(
                    unsigned_to_string(*max_depth as u64).as_str(),
                ).concat(" exceeded")
            },
            DecodeError::InvalidUtf8 { offset } => {
                String::from_str("Invalid UTF-8 in string field at offset ").concat(
                    unsigned_to_string(*offset as u64).as_str(),
                )
            },
            DecodeError::UnsupportedEncodingRule(rule) => {
                String::from_str("Unsupported encoding rule for decoding: ").concat(*rule)
            },
            DecodeError::SchemaRequired { encoding_rule } => {
                String::from_str("Schema required for ").concat(*encoding_rule).concat(
                    " decoding but not provided",
                )
            },
            DecodeError::MessageTooLarge { size, max_size } => {
                String::from_str("Message size ").concat(
                    unsigned_to_string(*size as u64).as_str(),
                ).concat(" exceeds maximum ").concat(unsigned_to_string(*max_size as u64).as_str())
            },
            DecodeError::Internal(s) => String::from_str(
                "Internal ASN.1 decoding error: ",
            ).concat(s.as_str()),
        }
    }
}

/// The text of an error.
pub open spec fn spec_error_text(e: Error) -> Seq<char> {
    match e {
        Error::Encode(inner) => "Encoding error: "@ + spec_encode_error_text(inner),
        Error::Decode(inner) => "Decoding error: "@ + spec_decode_error_text(inner),
        Error::Schema(s) => "Schema error: "@ + s@,
        Error::Config(s) => "Configuration error: "@ + s@,
        Error::Asn1(s) => "ASN.1 library error: "@ + s@,
    }
}

impl Error {
    /// The text of the error.
    pub fn to_string(&self) -> (r: String)
        ensures
            r@ == spec_error_text(*self),
    {
        match self {
            Error::Encode(inner) => String::from_str("Encoding error: ").concat(
                inner.to_string().as_str(),
            ),
            Error::Decode(inner) => String::from_str("Decoding error: ").concat(
                inner.to_string().as_str(),
            ),
            Error::Schema(s) => String::from_str("Schema error: ").concat(s.as_str()),
            Error::Config(s) => String::from_str("Configuration error: ").concat(s.as_str()),
            Error::Asn1(s) => String::from_str("ASN.1 library error: ").concat(s.as_str()),
        }
    }

    /// Adds the circumstances `msg` to an internal error of the library:
    /// an internal error of the encoder becomes a mismatch with the
    /// schema, one of the decoder an error of the schema. Any other error
    /// stays what it is.
    pub fn context(self, msg: &str) -> (r: Error)
        ensures
            match self {
                Error::Encode(EncodeError::Internal(s)) => r matches Error::Encode(
                    EncodeError::SchemaMismatch(text),
                ) && text@ == msg@ + ": "@ + s@,
                Error::Decode(DecodeError::Internal(s)) => r matches Error::Schema(text) && text@
                    == msg@ + ": "@ + s@,
                _ => r == self,
            },
    {
        match self {
            Error::Encode(EncodeError::Internal(s)) => Error::Encode(
                EncodeError::SchemaMismatch(
                    String::from_str(msg).concat(": ").concat(s.as_str()),
                ),
            ),
            Error::Decode(DecodeError::Internal(s)) => Error::Schema(
                String::from_str(msg).concat(": ").concat(s.as_str()),
            ),
            other => other,
        }
    }

    /// Adds the field in question to an internal error of the encoder: it
    /// becomes the complaint about the value of the field `tag` with the
    /// name `name`. Any other error stays what it is.
    pub fn field_context(self, tag: u32, name: &str) -> (r: Error)
        ensures
            match self {
                Error::Encode(EncodeError::Internal(s)) => r matches Error::Encode(
                    EncodeError::InvalidFieldValue { tag: t, reason },
                ) && t == tag && reason@ == name@ + " - "@ + s@,
                _ => r == self,
            },
    {
        match self {
            Error::Encode(EncodeError::Internal(s)) => Error::Encode(
                EncodeError::InvalidFieldValue {
                    tag,
                    reason: String::from_str(name).concat(" - ").concat(s.as_str()),
                },
            ),
            other => other,
        }
    }
}

} // verus!
