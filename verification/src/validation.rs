//! Validation of decoded messages against a dictionary.
use crate::asn1::decimal::{is_decimal, spec_is_decimal};
use crate::dict::{
    lemma_find_field, lemma_find_message, spec_find_field, spec_find_message, Dictionary,
    FieldDefinition, FixDatatype, LayoutItem, MessageDefinition, TagU32,
};
use crate::tagvalue::builder::MessageRecord;
use crate::tagvalue::digits::{
    all_digits, digits_of, parse_signed, parse_unsigned, spec_parse_signed, spec_parse_unsigned,
};
use crate::tagvalue::locator::FieldLocatorContext;
use crate::tagvalue::message::{spec_fields_from, Fields, Message};
use crate::tagvalue::scan::{
    find_byte, index_of, lemma_digits_end, lemma_digits_end_is, skip_digits,
};
use crate::text::{ascii_chars, complaint, str_eq, unsigned_to_string};
use crate::traits::string_from_utf8;
use vstd::prelude::*;
use vstd::string::StringExecFns;
use vstd::utf8::{decode_utf8, valid_utf8};

verus! {

/// What is wrong with a message.
#[derive(Debug, Clone, PartialEq, Eq)]
#[allow(inconsistent_fields)]
pub enum ValidationError {
    /// The message is missing a required field.
    RequiredFieldMissing {
        /// The tag of the field.
        tag: TagU32,
        /// The type of the message.
        msg_type: String,
    },
    /// A field has an invalid value.
    InvalidFieldValue {
        /// The tag of the field.
        tag: TagU32,
        /// The value.
        value: String,
        /// Why the value is invalid.
        reason: String,
    },
    /// The message is malformed.
    InvalidMessage {
        /// Why the message is invalid.
        reason: String,
    },
    /// The dictionary does not know the type of the message.
    UnknownMessageType {
        /// The type.
        msg_type: String,
    },
    /// A field is not written the way its type asks for.
    InvalidFieldFormat {
        /// The tag of the field.
        tag: u32,
        /// Why the format is invalid.
        reason: String,
    },
    /// The value of a field is out of the range that its type allows.
    ValueOutOfRange {
        /// The tag of the field.
        tag: u32,
        /// The value.
        value: String,
        /// Why the value is out of range.
        reason: String,
    },
}

/// What is wrong with a message, as plain values.
pub enum ValidationErrorView {
    RequiredFieldMissing { tag: u32, msg_type: Seq<char> },
    InvalidFieldValue { tag: u32, value: Seq<char>, reason: Seq<char> },
    InvalidMessage { reason: Seq<char> },
    UnknownMessageType { msg_type: Seq<char> },
    InvalidFieldFormat { tag: u32, reason: Seq<char> },
    ValueOutOfRange { tag: u32, value: Seq<char>, reason: Seq<char> },
}

impl View for ValidationError {
    type V = ValidationErrorView;

    open spec fn view(&self) -> ValidationErrorView {
        match self {
            ValidationError::RequiredFieldMissing { tag, msg_type } => {
                ValidationErrorView::RequiredFieldMissing {
                    tag: tag.spec_get(),
                    msg_type: msg_type@,
                }
            },
            ValidationError::InvalidFieldValue { tag, value, reason } => {
                ValidationErrorView::InvalidFieldValue {
                    tag: tag.spec_get(),
                    value: value@,
                    reason: reason@,
                }
            },
            ValidationError::InvalidMessage { reason } => ValidationErrorView::InvalidMessage {
                reason: reason@,
            },
            ValidationError::UnknownMessageType { msg_type } => {
                ValidationErrorView::UnknownMessageType { msg_type: msg_type@ }
            },
            ValidationError::InvalidFieldFormat { tag, reason } => {
                ValidationErrorView::InvalidFieldFormat { tag: *tag, reason: reason@ }
            },
            ValidationError::ValueOutOfRange { tag, value, reason } => {
                ValidationErrorView::ValueOutOfRange { tag: *tag, value: value@, reason: reason@ }
            },
        }
    }
}

/// The text of a number.
pub open spec fn spec_number(n: u32) -> Seq<char> {
    ascii_chars(digits_of(n as nat))
}

/// The text of an error.
pub open spec fn spec_error_text(e: ValidationErrorView) -> Seq<char> {
    match e {
        ValidationErrorView::RequiredFieldMissing { tag, msg_type } => "Field "@ + spec_number(tag)
            + " is required but not present in message type '"@ + msg_type + "'."@,
        ValidationErrorView::InvalidFieldValue { tag, value, reason } => "Invalid value '"@ + value
            + "' for field "@ + spec_number(tag) + ": "@ + reason,
        ValidationErrorView::InvalidMessage { reason } => "Invalid message structure: "@ + reason,
        ValidationErrorView::UnknownMessageType { msg_type } => "Unknown message type: '"@
            + msg_type + "'"@,
        ValidationErrorView::InvalidFieldFormat { tag, reason } => "Field "@ + spec_number(tag)
            + " format validation failed: "@ + reason,
        ValidationErrorView::ValueOutOfRange { tag, value, reason } => "Field "@ + spec_number(tag)
            + " value '"@ + value + "' is out of acceptable range: "@ + reason,
    }
}

impl ValidationError {
    /// The text of the error.
    pub fn to_string(&self) -> (r: String)
        ensures
            r@ == spec_error_text(self@),
    {
        match self {
            ValidationError::RequiredFieldMissing { tag, msg_type } => {
                String::from_str("Field ").concat(
                    unsigned_to_string(tag.get() as u64).as_str(),
                ).concat(" is required but not present in message type '").concat(
                    msg_type.as_str(),
                ).concat("'.")
            },
            ValidationError::InvalidFieldValue { tag, value, reason } => {
                String::from_str("Invalid value '").concat(value.as_str()).concat(
                    "' for field ",
                ).concat(unsigned_to_string(tag.get() as u64).as_str()).concat(": ").concat(
                    reason.as_str(),
                )
            },
            ValidationError::InvalidMessage { reason } => {
                String::from_str("Invalid message structure: ").concat(reason.as_str())
            },
            ValidationError::UnknownMessageType { msg_type } => {
                String::from_str("Unknown message type: '").concat(msg_type.as_str()).concat("'")
            },
            ValidationError::InvalidFieldFormat { tag, reason } => {
                String::from_str("Field ").concat(unsigned_to_string(*tag as u64).as_str()).concat(
                    " format validation failed: ",
                ).concat(reason.as_str())
            },
            ValidationError::ValueOutOfRange { tag, value, reason } => {
                String::from_str("Field ").concat(unsigned_to_string(*tag as u64).as_str()).concat(
                    " value '",
                ).concat(value.as_str()).concat("' is out of acceptable range: ").concat(
                    reason.as_str(),
                )
            },
        }
    }
}

/// The text that shows bytes as a list of numbers, without its brackets.
pub open spec fn spec_debug_items(bytes: Seq<u8>) -> Seq<char>
    decreases bytes.len(),
{
    if bytes.len() == 0 {
        Seq::empty()
    } else if bytes.len() == 1 {
        ascii_chars(digits_of(bytes[0] as nat))
    } else {
        spec_debug_items(bytes.drop_last()) + ", "@ + ascii_chars(digits_of(bytes.last() as nat))
    }
}

/// The text that shows bytes as a list of numbers: `[1, 2, 3]`.
pub open spec fn spec_debug_bytes(bytes: Seq<u8>) -> Seq<char> {
    "["@ + spec_debug_items(bytes) + "]"@
}

/// Shows bytes as a list of numbers.
pub fn debug_bytes(bytes: &[u8]) -> (r: String)
    ensures
        r@ == spec_debug_bytes(bytes@),
{
    let mut out: String = String::from_str("[");
    let mut i: usize = 0;
    proof {
        assert(bytes@.take(0) =~= Seq::<u8>::empty());
        assert("["@ + Seq::<char>::empty() =~= "["@);
    }
    while i < bytes.len()
        invariant
            i <= bytes.len(),
            out@ == "["@ + spec_debug_items(bytes@.take(i as int)),
        decreases bytes.len() - i,
    {
        let number: String = unsigned_to_string(bytes[i] as u64);
        proof {
            assert(bytes@.take(i + 1).drop_last() =~= bytes@.take(i as int));
            assert(bytes@.take(i + 1).last() == bytes@[i as int]);
        }
        if i > 0 {
            out = out.concat(", ");
            out = out.concat(number.as_str());
            assert(out@ =~= "["@ + spec_debug_items(bytes@.take(i + 1)));
        } else {
            out = out.concat(number.as_str());
            assert(out@ =~= "["@ + spec_debug_items(bytes@.take(i + 1)));
        }
        i = i + 1;
    }
    proof {
        assert(bytes@.take(i as int) =~= bytes@);
    }
    out.concat("]")
}

/// A validator that asks for the required fields and no more.
#[derive(Debug, Default, Clone, Copy)]
pub struct SimpleValidator {}

/// A validator in layers: the type of the message, the required fields,
/// and for every field its format and the range of its value.
#[derive(Debug, Default, Clone, Copy, PartialEq, Eq, Structural)]
pub struct AdvancedValidator {
    /// Whether the format of every field is checked.
    pub strict_format_validation: bool,
    /// Whether the range of every value is checked.
    pub validate_value_ranges: bool,
    /// Whether fields that the dictionary does not know are refused.
    pub reject_unknown_fields: bool,
}

/// Whether `value` holds the byte `b`.
pub open spec fn spec_holds(value: Seq<u8>, b: u8) -> bool {
    index_of(value, b, 0) < value.len()
}

/// What is wrong with the format of a value of a type, if anything.
pub open spec fn spec_format_complaint(data_type: FixDatatype, value: Seq<u8>) -> Option<Seq<char>> {
    match data_type {
        FixDatatype::UtcTimestamp => if value.len() < 17 || !spec_holds(value, 0x2d) || !spec_holds(
            value,
            0x3a,
        ) {
            Some("Invalid time format, expected YYYYMMDD-HH:MM:SS[.nnn]"@)
        } else {
            None
        },
        FixDatatype::UtcDateOnly => if value.len() != 8 || !all_digits(value) {
            Some("Invalid date format, expected YYYYMMDD"@)
        } else {
            None
        },
        FixDatatype::Float
        | FixDatatype::Amt
        | FixDatatype::Price
        | FixDatatype::PriceOffset
        | FixDatatype::Quantity => if spec_is_decimal(value) {
            None
        } else {
            Some("Invalid numeric format"@)
        },
        FixDatatype::SeqNum => if spec_parse_unsigned(value, u64::MAX as nat) is Some {
            None
        } else {
            Some("Sequence number must be a positive integer"@)
        },
        FixDatatype::Int | FixDatatype::Length | FixDatatype::NumInGroup => if spec_parse_signed(
            value,
            i64::MIN as int,
            i64::MAX as int,
        ) is Some {
            None
        } else {
            Some("Field must be a valid integer"@)
        },
        FixDatatype::Char => if value.len() == 1 {
            None
        } else {
            Some("Char field must be exactly one character"@)
        },
        FixDatatype::Boolean => if value == seq![0x59u8] || value == seq![0x4eu8] {
            None
        } else {
            Some("Boolean field must be 'Y' or 'N'"@)
        },
        _ => None,
    }
}

/// Whether one of `enums` is `text`.
pub open spec fn spec_listed(enums: Seq<String>, text: Seq<char>) -> bool {
    exists|i: int| 0 <= i < enums.len() && (#[trigger] enums[i])@ == text
}

/// What is wrong with the value of a field, if anything.
pub open spec fn spec_value_complaint(field: FieldDefinition, value: Seq<u8>) -> Option<Seq<char>> {
    match field.data_type {
        FixDatatype::SeqNum => match spec_parse_unsigned(value, u64::MAX as nat) {
            None => Some("Sequence number must be a positive integer"@),
            Some(n) => if n == 0 {
                Some("Sequence number must be greater than 0"@)
            } else {
                None
            },
        },
        FixDatatype::Boolean => if value == seq![0x59u8] || value == seq![0x4eu8] {
            None
        } else {
            Some("Boolean field must be 'Y' or 'N'"@)
        },
        FixDatatype::Char => match field.enums {
            Some(enums) => if spec_listed(enums@, decode_utf8(value)) {
                None
            } else {
                Some("Value not in the list of valid values for field '"@ + field.name@ + "'"@)
            },
            None => if value.len() == 1 {
                None
            } else {
                Some("Character field must be exactly one character"@)
            },
        },
        FixDatatype::Int | FixDatatype::Length | FixDatatype::NumInGroup => match spec_parse_signed(
            value,
            i64::MIN as int,
            i64::MAX as int,
        ) {
            None => Some("Field must be a valid integer"@),
            Some(n) => if n < 0 {
                Some("Integer field cannot be negative"@)
            } else {
                None
            },
        },
        FixDatatype::Quantity
        | FixDatatype::Amt
        | FixDatatype::Price
        | FixDatatype::PriceOffset => if spec_is_decimal(value) {
            None
        } else {
            Some("Numeric field must be a valid number"@)
        },
        _ => None,
    }
}

/// The answer for a field: a complaint about its format, or none.
pub open spec fn spec_format_answer(tag: u32, complaint: Option<Seq<char>>) -> Result<
    (),
    ValidationErrorView,
> {
    match complaint {
        Some(reason) => Err(ValidationErrorView::InvalidFieldFormat { tag, reason }),
        None => Ok(()),
    }
}

/// The answer for a field: a complaint about its value, or none.
pub open spec fn spec_value_answer(tag: u32, value: Seq<char>, complaint: Option<Seq<char>>) -> Result<
    (),
    ValidationErrorView,
> {
    match complaint {
        Some(reason) => Err(ValidationErrorView::ValueOutOfRange { tag, value, reason }),
        None => Ok(()),
    }
}

/// Whether the first required field of `layout` from `from` on that
/// `record` lacks in `context` exists, and which it is.
pub open spec fn spec_required_missing(
    layout: Seq<LayoutItem>,
    record: MessageRecord,
    context: FieldLocatorContext,
    from: int,
) -> Option<TagU32>
    decreases layout.len() - from,
{
    if from < 0 || from >= layout.len() {
        None
    } else if layout[from].required && record.raw(context, layout[from].tag.spec_get()) is None {
        Some(layout[from].tag)
    } else {
        spec_required_missing(layout, record, context, from + 1)
    }
}

/// What the check of the required fields says of a message: its type has
/// to be readable and known to the dictionary, and every required field of
/// the type has to be there.
pub open spec fn spec_validate_required(
    record: MessageRecord,
    context: FieldLocatorContext,
    messages: Seq<MessageDefinition>,
) -> Result<(), ValidationErrorView> {
    match record.raw(context, 35) {
        None => Err(
            ValidationErrorView::InvalidMessage { reason: "Unable to extract message type"@ },
        ),
        Some(value) => if !valid_utf8(value) {
            Err(ValidationErrorView::InvalidMessage { reason: "Unable to extract message type"@ })
        } else {
            let msg_type = decode_utf8(value);
            match spec_find_message(messages, msg_type) {
                None => Err(ValidationErrorView::UnknownMessageType { msg_type }),
                Some(i) => match spec_required_missing(messages[i].layout@, record, context, 0) {
                    Some(tag) => Err(
                        ValidationErrorView::RequiredFieldMissing {
                            tag: tag.spec_get(),
                            msg_type,
                        },
                    ),
                    None => Ok(()),
                },
            }
        },
    }
}

/// Checks the required fields of a message.
fn check_required_fields(message: &Message, dict: &Dictionary) -> (r: Result<(), ValidationError>)
    ensures
        match spec_validate_required(message.record(), message.context(), dict.messages@) {
            Ok(()) => r is Ok,
            Err(e) => r matches Err(got) && got@ == e,
        },
{
    let msg_type: String = match message.msg_type() {
        Ok(msg_type) => msg_type,
        Err(_) => {
            return Err(
                ValidationError::InvalidMessage {
                    reason: String::from_str("Unable to extract message type"),
                },
            );
        },
    };
    proof {
        lemma_find_message(dict.messages@, msg_type@);
    }
    let message_spec: &MessageDefinition = match dict.message_by_msgtype(msg_type.as_str()) {
        Some(message_spec) => message_spec,
        None => {
            return Err(ValidationError::UnknownMessageType { msg_type });
        },
    };
    let layout: &Vec<LayoutItem> = message_spec.layout();
    let mut i: usize = 0;
    while i < layout.len()
        invariant
            i <= layout.len(),
            spec_required_missing(layout@, message.record(), message.context(), i as int)
                == spec_required_missing(layout@, message.record(), message.context(), 0),
            spec_validate_required(message.record(), message.context(), dict.messages@) == (
            match spec_required_missing(layout@, message.record(), message.context(), 0) {
                Some(tag) => Err::<(), ValidationErrorView>(
                    ValidationErrorView::RequiredFieldMissing {
                        tag: tag.spec_get(),
                        msg_type: msg_type@,
                    },
                ),
                None => Ok::<(), ValidationErrorView>(()),
            }),
        decreases layout.len() - i,
    {
        let item: LayoutItem = layout[i];
        if item.required {
            if message.get_raw(item.tag.get()).is_none() {
                return Err(ValidationError::RequiredFieldMissing { tag: item.tag, msg_type });
            }
        }
        i = i + 1;
    }
    Ok(())
}

/// Something that says whether a message is valid.
pub trait Validator {
    /// What the validator says of the part `context` of a message.
    spec fn spec_validate(
        &self,
        record: MessageRecord,
        context: FieldLocatorContext,
        dict: Dictionary,
    ) -> Result<(), ValidationErrorView>;

    /// Validates `msg`: `Ok` where nothing is wrong with it, or what is
    /// wrong first.
    fn validate(&self, msg: &Message, dict: &Dictionary) -> (r: Result<(), ValidationError>)
        ensures
            match self.spec_validate(msg.record(), msg.context(), *dict) {
                Ok(()) => r is Ok,
                Err(e) => r matches Err(got) && got@ == e,
            },
    ;
}

impl Validator for SimpleValidator {
    open spec fn spec_validate(
        &self,
        record: MessageRecord,
        context: FieldLocatorContext,
        dict: Dictionary,
    ) -> Result<(), ValidationErrorView> {
        spec_validate_required(record, context, dict.messages@)
    }

    fn validate(&self, msg: &Message, dict: &Dictionary) -> (r: Result<(), ValidationError>) {
        check_required_fields(msg, dict)
    }
}

/// What the check of the format says of a field.
pub open spec fn spec_validate_field_format(
    validator: AdvancedValidator,
    tag: u32,
    value: Seq<u8>,
    fields: Seq<FieldDefinition>,
) -> Result<(), ValidationErrorView> {
    if !validator.strict_format_validation {
        Ok(())
    } else if !valid_utf8(value) {
        Err(
            ValidationErrorView::InvalidFieldFormat {
                tag,
                reason: "Field value is not valid UTF-8"@,
            },
        )
    } else {
        match spec_find_field(fields, tag) {
            Some(i) => spec_format_answer(tag, spec_format_complaint(fields[i].data_type, value)),
            None => if validator.reject_unknown_fields {
                Err(ValidationErrorView::InvalidFieldFormat { tag, reason: "Unknown field tag"@ })
            } else {
                Ok(())
            },
        }
    }
}

/// What the check of the range says of a field.
pub open spec fn spec_validate_field_values(
    validator: AdvancedValidator,
    tag: u32,
    value: Seq<u8>,
    fields: Seq<FieldDefinition>,
) -> Result<(), ValidationErrorView> {
    if !validator.validate_value_ranges {
        Ok(())
    } else if !valid_utf8(value) {
        Err(
            ValidationErrorView::ValueOutOfRange {
                tag,
                value: spec_debug_bytes(value),
                reason: "Field value is not valid UTF-8"@,
            },
        )
    } else {
        match spec_find_field(fields, tag) {
            Some(i) => spec_value_answer(
                tag,
                decode_utf8(value),
                spec_value_complaint(fields[i], value),
            ),
            None => if validator.reject_unknown_fields {
                Err(
                    ValidationErrorView::ValueOutOfRange {
                        tag,
                        value: decode_utf8(value),
                        reason: "Unknown field tag"@,
                    },
                )
            } else {
                Ok(())
            },
        }
    }
}

/// What the checks of format and range say of the fields from `from` on:
/// the first complaint, or none.
pub open spec fn spec_validate_fields(
    validator: AdvancedValidator,
    all: Seq<(u32, Seq<u8>)>,
    fields: Seq<FieldDefinition>,
    from: int,
) -> Result<(), ValidationErrorView>
    decreases all.len() - from,
{
    if from < 0 || from >= all.len() {
        Ok(())
    } else {
        match spec_validate_field_format(validator, all[from].0, all[from].1, fields) {
            Err(e) => Err(e),
            Ok(()) => match spec_validate_field_values(
                validator,
                all[from].0,
                all[from].1,
                fields,
            ) {
                Err(e) => Err(e),
                Ok(()) => spec_validate_fields(validator, all, fields, from + 1),
            },
        }
    }
}

/// An error about the format of a field.
fn format_error(tag: u32, reason: &str) -> (r: Result<(), ValidationError>)
    ensures
        r matches Err(e) && e@ == (ValidationErrorView::InvalidFieldFormat { tag, reason: reason@ }),
{
    Err(ValidationError::InvalidFieldFormat { tag, reason: String::from_str(reason) })
}

/// An error about the range of a value.
fn range_error(tag: u32, value: String, reason: String) -> (r: Result<(), ValidationError>)
    ensures
        r matches Err(e) && e@ == (ValidationErrorView::ValueOutOfRange {
            tag,
            value: value@,
            reason: reason@,
        }),
{
    Err(ValidationError::ValueOutOfRange { tag, value, reason })
}

/// Tests whether `value` is `Y` or `N`.
fn is_y_or_n(value: &[u8]) -> (r: bool)
    ensures
        r == (value@ == seq![0x59u8] || value@ == seq![0x4eu8]),
{
    proof {
        if value@.len() == 1 {
            assert(value@ =~= seq![value@[0]]);
        }
    }
    value.len() == 1 && (value[0] == 0x59 || value[0] == 0x4e)
}

/// Tests whether one of `enums` is `text`.
fn is_listed(enums: &Vec<String>, text: &str) -> (r: bool)
    ensures
        r == spec_listed(enums@, text@),
{
    let mut i: usize = 0;
    while i < enums.len()
        invariant
            i <= enums.len(),
            forall|j: int| 0 <= j < i ==> (#[trigger] enums@[j])@ != text@,
        decreases enums.len() - i,
    {
        if str_eq(enums[i].as_str(), text) {
            return true;
        }
        i = i + 1;
    }
    false
}

impl AdvancedValidator {
    /// A validator that checks formats and ranges and lets unknown fields
    /// pass.
    pub fn new() -> (r: AdvancedValidator)
        ensures
            r == (AdvancedValidator {
                strict_format_validation: true,
                validate_value_ranges: true,
                reject_unknown_fields: false,
            }),
    {
        AdvancedValidator {
            strict_format_validation: true,
            validate_value_ranges: true,
            reject_unknown_fields: false,
        }
    }

    /// A validator that checks formats and ranges and refuses unknown
    /// fields.
    pub fn strict() -> (r: AdvancedValidator)
        ensures
            r == (AdvancedValidator {
                strict_format_validation: true,
                validate_value_ranges: true,
                reject_unknown_fields: true,
            }),
    {
        AdvancedValidator {
            strict_format_validation: true,
            validate_value_ranges: true,
            reject_unknown_fields: true,
        }
    }

    /// Checks that the dictionary knows the type of message.
    pub fn validate_message_type(&self, msg_type: &str, dict: &Dictionary) -> (r: Result<
        (),
        ValidationError,
    >)
        ensures
            spec_find_message(dict.messages@, msg_type@) is Some ==> r is Ok,
            spec_find_message(dict.messages@, msg_type@) is None ==> (r matches Err(e) && e@ == (
            ValidationErrorView::UnknownMessageType { msg_type: msg_type@ })),
    {
        if dict.message_by_msgtype(msg_type).is_some() {
            Ok(())
        } else {
            Err(ValidationError::UnknownMessageType { msg_type: String::from_str(msg_type) })
        }
    }

    /// Checks that the value of a field is written the way the type of
    /// the field asks for.
    pub fn validate_field_format(&self, tag: u32, value: &[u8], dict: &Dictionary) -> (r: Result<
        (),
        ValidationError,
    >)
        ensures
            match spec_validate_field_format(*self, tag, value@, dict.fields@) {
                Ok(()) => r is Ok,
                Err(e) => r matches Err(got) && got@ == e,
            },
    {
        if !self.strict_format_validation {
            return Ok(());
        }
        if string_from_utf8(value).is_none() {
            return format_error(tag, "Field value is not valid UTF-8");
        }
        proof {
            lemma_find_field(dict.fields@, tag);
        }
        match dict.field_by_tag(tag) {
            Some(field) => {
                match field.data_type() {
                    FixDatatype::UtcTimestamp => self.validate_time_format(tag, value),
                    FixDatatype::UtcDateOnly => self.validate_date_format(tag, value),
                    FixDatatype::Float
                    | FixDatatype::Amt
                    | FixDatatype::Price
                    | FixDatatype::PriceOffset
                    | FixDatatype::Quantity => self.validate_numeric_format(tag, value),
                    FixDatatype::SeqNum => self.validate_sequence_number_format(tag, value),
                    FixDatatype::Int | FixDatatype::Length | FixDatatype::NumInGroup => {
                        if parse_signed(value, i64::MIN, i64::MAX).is_none() {
                            return format_error(tag, "Field must be a valid integer");
                        }
                        Ok(())
                    },
                    FixDatatype::Char => {
                        if value.len() != 1 {
                            return format_error(tag, "Char field must be exactly one character");
                        }
                        Ok(())
                    },
                    FixDatatype::Boolean => {
                        if is_y_or_n(value) {
                            Ok(())
                        } else {
                            format_error(tag, "Boolean field must be 'Y' or 'N'")
                        }
                    },
                    // Any text will do for the other types.
                    _ => Ok(()),
                }
            },
            None => {
                if self.reject_unknown_fields {
                    format_error(tag, "Unknown field tag")
                } else {
                    Ok(())
                }
            },
        }
    }

    /// Checks that the type of the message is known and that its required
    /// fields are there.
    pub fn validate_required_fields(&self, message: &Message, dict: &Dictionary) -> (r: Result<
        (),
        ValidationError,
    >)
        ensures
            match spec_validate_required(message.record(), message.context(), dict.messages@) {
                Ok(()) => r is Ok,
                Err(e) => r matches Err(got) && got@ == e,
            },
    {
        check_required_fields(message, dict)
    }

    /// Checks that the value of a field lies in the range that the type of
    /// the field allows.
    pub fn validate_field_values(&self, tag: u32, value: &[u8], dict: &Dictionary) -> (r: Result<
        (),
        ValidationError,
    >)
        ensures
            match spec_validate_field_values(*self, tag, value@, dict.fields@) {
                Ok(()) => r is Ok,
                Err(e) => r matches Err(got) && got@ == e,
            },
    {
        if !self.validate_value_ranges {
            return Ok(());
        }
        let value_str: String = match string_from_utf8(value) {
            Some(s) => s,
            None => {
                return range_error(
                    tag,
                    debug_bytes(value),
                    String::from_str("Field value is not valid UTF-8"),
                );
            },
        };
        proof {
            lemma_find_field(dict.fields@, tag);
        }
        match dict.field_by_tag(tag) {
            Some(field) => {
                match field.data_type() {
                    FixDatatype::SeqNum => {
                        // Sequence numbers count from 1.
                        match parse_unsigned(value, u64::MAX) {
                            None => range_error(
                                tag,
                                value_str,
                                String::from_str("Sequence number must be a positive integer"),
                            ),
                            Some(seq_num) => {
                                if seq_num == 0 {
                                    range_error(
                                        tag,
                                        value_str,
                                        String::from_str("Sequence number must be greater than 0"),
                                    )
                                } else {
                                    Ok(())
                                }
                            },
                        }
                    },
                    FixDatatype::Boolean => {
                        if is_y_or_n(value) {
                            Ok(())
                        } else {
                            range_error(
                                tag,
                                value_str,
                                String::from_str("Boolean field must be 'Y' or 'N'"),
                            )
                        }
                    },
                    FixDatatype::Char => {
                        match field.enums() {
                            Some(enums) => {
                                // The dictionary lists the values.
                                if is_listed(enums, value_str.as_str()) {
                                    Ok(())
                                } else {
                                    let reason: String = String::from_str(
                                        "Value not in the list of valid values for field '",
                                    ).concat(field.name()).concat("'");
                                    range_error(tag, value_str, reason)
                                }
                            },
                            None => {
                                if value.len() != 1 {
                                    range_error(
                                        tag,
                                        value_str,
                                        String::from_str(
                                            "Character field must be exactly one character",
                                        ),
                                    )
                                } else {
                                    Ok(())
                                }
                            },
                        }
                    },
                    FixDatatype::Int | FixDatatype::Length | FixDatatype::NumInGroup => {
                        match parse_signed(value, i64::MIN, i64::MAX) {
                            None => range_error(
                                tag,
                                value_str,
                                String::from_str("Field must be a valid integer"),
                            ),
                            Some(int_val) => {
                                if int_val < 0 {
                                    range_error(
                                        tag,
                                        value_str,
                                        String::from_str("Integer field cannot be negative"),
                                    )
                                } else {
                                    Ok(())
                                }
                            },
                        }
                    },
                    FixDatatype::Quantity
                    | FixDatatype::Amt
                    | FixDatatype::Price
                    | FixDatatype::PriceOffset => {
                        if is_decimal(value) {
                            Ok(())
                        } else {
                            range_error(
                                tag,
                                value_str,
                                String::from_str("Numeric field must be a valid number"),
                            )
                        }
                    },
                    // The other types have no range to check.
                    _ => Ok(()),
                }
            },
            None => {
                if self.reject_unknown_fields {
                    range_error(tag, value_str, String::from_str("Unknown field tag"))
                } else {
                    Ok(())
                }
            },
        }
    }

    /// Checks a timestamp, `YYYYMMDD-HH:MM:SS` or `YYYYMMDD-HH:MM:SS.nnn`:
    /// it has to have 17 bytes or more and to hold a `-` and a `:`.
    fn validate_time_format(&self, tag: u32, value: &[u8]) -> (r: Result<(), ValidationError>)
        ensures
            match spec_format_answer(tag, spec_format_complaint(FixDatatype::UtcTimestamp, value@)) {
                Ok(()) => r is Ok,
                Err(e) => r matches Err(got) && got@ == e,
            },
    {
        if value.len() < 17 || find_byte(value, 0, 0x2d) >= value.len() || find_byte(
            value,
            0,
            0x3a,
        ) >= value.len() {
            return format_error(tag, "Invalid time format, expected YYYYMMDD-HH:MM:SS[.nnn]");
        }
        Ok(())
    }

    /// Checks a date, `YYYYMMDD`: eight digits.
    fn validate_date_format(&self, tag: u32, value: &[u8]) -> (r: Result<(), ValidationError>)
        ensures
            match spec_format_answer(tag, spec_format_complaint(FixDatatype::UtcDateOnly, value@)) {
                Ok(()) => r is Ok,
                Err(e) => r matches Err(got) && got@ == e,
            },
    {
        proof {
            lemma_digits_end(value@, 0);
            if all_digits(value@) {
                lemma_digits_end_is(value@, 0, value@.len() as int);
            }
        }
        if value.len() != 8 || skip_digits(value, 0) != value.len() {
            return format_error(tag, "Invalid date format, expected YYYYMMDD");
        }
        Ok(())
    }

    /// Checks a decimal number.
    fn validate_numeric_format(&self, tag: u32, value: &[u8]) -> (r: Result<(), ValidationError>)
        ensures
            match spec_format_answer(tag, spec_format_complaint(FixDatatype::Price, value@)) {
                Ok(()) => r is Ok,
                Err(e) => r matches Err(got) && got@ == e,
            },
    {
        if !is_decimal(value) {
            return format_error(tag, "Invalid numeric format");
        }
        Ok(())
    }

    /// Checks a sequence number: an unsigned integer.
    fn validate_sequence_number_format(&self, tag: u32, value: &[u8]) -> (r: Result<
        (),
        ValidationError,
    >)
        ensures
            match spec_format_answer(tag, spec_format_complaint(FixDatatype::SeqNum, value@)) {
                Ok(()) => r is Ok,
                Err(e) => r matches Err(got) && got@ == e,
            },
    {
        if parse_unsigned(value, u64::MAX).is_none() {
            return format_error(tag, "Sequence number must be a positive integer");
        }
        Ok(())
    }
}

impl Validator for AdvancedValidator {
    open spec fn spec_validate(
        &self,
        record: MessageRecord,
        context: FieldLocatorContext,
        dict: Dictionary,
    ) -> Result<(), ValidationErrorView> {
        match spec_validate_required(record, context, dict.messages@) {
            Err(e) => Err(e),
            Ok(()) => spec_validate_fields(*self, spec_fields_from(record, 0), dict.fields@, 0),
        }
    }

    fn validate(&self, msg: &Message, dict: &Dictionary) -> (r: Result<(), ValidationError>) {
        // The type of the message and its required fields.
        match self.validate_required_fields(msg, dict) {
            Err(e) => {
                return Err(e);
            },
            Ok(()) => {},
        }
        // Format and range of every field, in one pass.
        let mut fields: Fields = msg.fields();
        let ghost all = spec_fields_from(msg.record(), 0);
        let ghost mut done: int = 0;
        loop
            invariant
                fields.record() == msg.record(),
                all == spec_fields_from(msg.record(), 0),
                0 <= done <= all.len(),
                spec_fields_from(fields.record(), fields.position()) =~= all.skip(done),
                spec_validate_fields(*self, all, dict.fields@, done) == spec_validate_fields(
                    *self,
                    all,
                    dict.fields@,
                    0,
                ),
                spec_validate_required(msg.record(), msg.context(), dict.messages@) is Ok,
            decreases all.len() - done,
        {
            let ghost before = spec_fields_from(fields.record(), fields.position());
            match fields.next() {
                None => {
                    assert(done == all.len());
                    return Ok(());
                },
                Some((tag, value)) => {
                    proof {
                        let after = spec_fields_from(fields.record(), fields.position());
                        assert(before == seq![(tag, value@)] + after);
                        assert(before[0] == (tag, value@));
                        assert(all[done] == before[0]);
                        assert(after =~= all.skip(done + 1)) by {
                            assert forall|k: int| 0 <= k < after.len() implies after[k] == all.skip(
                                done + 1,
                            )[k] by {
                                assert(before[k + 1] == after[k]);
                            }
                        }
                    }
                    match self.validate_field_format(tag, value, dict) {
                        Err(e) => {
                            return Err(e);
                        },
                        Ok(()) => {},
                    }
                    match self.validate_field_values(tag, value, dict) {
                        Err(e) => {
                            return Err(e);
                        },
                        Ok(()) => {},
                    }
                    proof {
                        done = done + 1;
                    }
                },
            }
        }
    }
}

} // verus!
