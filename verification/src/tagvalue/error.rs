//! The ways in which decoding fails.
use vstd::prelude::*;

verus! {

/// The envelope of a message is broken: the fields that frame it are absent
/// or contradict the bytes between them.
#[derive(Debug, Clone, Copy, PartialEq, Eq, Structural)]
pub enum FrameError {
    /// The buffer does not start with a complete `BeginString(8)` field.
    MissingBeginString,
    /// `BeginString(8)` is not followed by a complete `BodyLength(9)` field
    /// that holds a decimal number.
    MissingBodyLength,
    /// The message would take more bytes than the configuration allows.
    TooLarge,
    /// The buffer ends before the body that `BodyLength(9)` announces.
    TruncatedBody,
    /// The body is not followed by `CheckSum(10)` with three digits.
    MissingCheckSum,
    /// The value of `CheckSum(10)` differs from the sum of the bytes before
    /// the field, modulo 256.
    CheckSumMismatch,
}

/// A field is not of the form `tag=value<separator>`.
#[derive(Debug, Clone, Copy, PartialEq, Eq, Structural)]
pub enum FieldSyntaxError {
    /// The tag holds a byte that is no digit, is empty, is zero or does not
    /// fit in 32 bits.
    InvalidTag,
    /// The buffer ends inside a tag, before any `=`.
    MissingEquals,
    /// The value is not closed by the separator.
    MissingSeparator,
    /// A value whose length the preceding field fixed would reach beyond
    /// the end of the body.
    OutOfBounds,
}

/// A field that steers the decoder holds no decimal number.
#[derive(Debug, Clone, Copy, PartialEq, Eq, Structural)]
pub enum ConstraintViolation {
    /// The count of a repeating group is not numeric.
    NumInGroup { tag: u32 },
    /// The length of a data field is not numeric.
    Length { tag: u32 },
}

/// Why a buffer is no well-formed message.
#[derive(Debug, Clone, Copy, PartialEq, Eq, Structural)]
pub enum InvalidReason {
    Frame(FrameError),
    FieldSyntax(FieldSyntaxError),
    Constraint(ConstraintViolation),
}

/// The error of a decoder. Every one of them is fatal: no part of the
/// message is handed out.
#[derive(Debug, Clone, Copy, PartialEq, Eq, Structural)]
pub enum DecodeError {
    /// The buffer is no well-formed message.
    Invalid { reason: InvalidReason },
}

/// The error for a broken envelope.
pub open spec fn frame_error(e: FrameError) -> DecodeError {
    DecodeError::Invalid { reason: InvalidReason::Frame(e) }
}

/// The error for a malformed field.
pub open spec fn syntax_error(e: FieldSyntaxError) -> DecodeError {
    DecodeError::Invalid { reason: InvalidReason::FieldSyntax(e) }
}

/// The error for a steering field without a number.
pub open spec fn constraint_error(e: ConstraintViolation) -> DecodeError {
    DecodeError::Invalid { reason: InvalidReason::Constraint(e) }
}

impl DecodeError {
    /// Builds the error for a broken envelope.
    pub fn frame(e: FrameError) -> (r: DecodeError)
        ensures
            r == frame_error(e),
    {
        DecodeError::Invalid { reason: InvalidReason::Frame(e) }
    }

    /// Builds the error for a malformed field.
    pub fn syntax(e: FieldSyntaxError) -> (r: DecodeError)
        ensures
            r == syntax_error(e),
    {
        DecodeError::Invalid { reason: InvalidReason::FieldSyntax(e) }
    }

    /// Builds the error for a steering field without a number.
    pub fn constraint(e: ConstraintViolation) -> (r: DecodeError)
        ensures
            r == constraint_error(e),
    {
        DecodeError::Invalid { reason: InvalidReason::Constraint(e) }
    }

    /// Whether the envelope was at fault.
    pub fn is_frame_error(&self) -> (r: bool)
        ensures
            r == (self matches DecodeError::Invalid { reason: InvalidReason::Frame(_) }),
    {
        match self {
            DecodeError::Invalid { reason: InvalidReason::Frame(_) } => true,
            _ => false,
        }
    }

    /// Whether a field's syntax was at fault.
    pub fn is_field_syntax_error(&self) -> (r: bool)
        ensures
            r == (self matches DecodeError::Invalid { reason: InvalidReason::FieldSyntax(_) }),
    {
        match self {
            DecodeError::Invalid { reason: InvalidReason::FieldSyntax(_) } => true,
            _ => false,
        }
    }

    /// Whether a steering field without a number was at fault.
    pub fn is_constraint_violation(&self) -> (r: bool)
        ensures
            r == (self matches DecodeError::Invalid { reason: InvalidReason::Constraint(_) }),
    {
        match self {
            DecodeError::Invalid { reason: InvalidReason::Constraint(_) } => true,
            _ => false,
        }
    }
}

} // verus!
