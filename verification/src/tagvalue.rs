//! Decoding of the classic FIX `tag=value` encoding.

pub mod builder;
pub mod config;
pub mod decoder;
pub mod digits;
pub mod error;
pub mod laws;
pub mod locator;
pub mod lookup;
pub mod message;
pub mod raw_decoder;
pub mod scan;
pub mod state;
pub mod walker;

pub use config::Config;
pub use error::{ConstraintViolation, DecodeError, FieldSyntaxError, FrameError, InvalidReason};
pub use raw_decoder::{RawDecoder, RawFrame};
pub use decoder::{Decoder, DecoderStreaming};
pub use message::{Fields, Message, MessageGroup, MessageMut};
