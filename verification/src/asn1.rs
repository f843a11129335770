//! FIX values as ASN.1 sees them: the encoding rules, the types of field
//! values, and the typed values themselves.

pub mod buffers;
pub mod config;
pub mod decimal;
pub mod decoder;
pub mod encoder;
pub mod error;
pub mod field_types;
pub mod message;
pub mod schema;
pub mod time;
pub mod tracing;
pub mod types;

pub use buffers::{FieldBuffer, HeaderBuffer, MessageBuffer};
pub use config::{Config, EncodingRule, MessageOptions};
pub use field_types::{
    Asn1Boolean, Asn1Bytes, Asn1FieldError, Asn1Integer, Asn1String, Asn1UInteger,
};
pub use schema::{FieldTypeInfo, FixDataType, GroupSchema, MessageSchema, Schema};
pub use tracing::{DecodingMetrics, DecodingReport, EncodingMetrics, EncodingReport};
pub use types::{Field, FixFieldValue, FixMessage, SchemaError, ToFixFieldValue};
pub use error::{DecodeError, EncodeError, Error};
pub use decoder::{DecodedMessage, Decoder, DecoderStreaming};
pub use message::{Asn1Field, Asn1FixMessage, Message, MessageGroup};
pub use encoder::{Encoder, EncoderHandle, EncoderStreaming};
