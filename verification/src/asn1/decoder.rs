//! Decoding of messages in ASN.1: what is checked before and after the
//! bytes are handed to the ASN.1 library, the message that comes out, and
//! the framing of messages in a stream.
//!
//! The library itself is not called from here. A caller frames and checks
//! the bytes with the functions of this module, has them decoded, and
//! hands the result back.
use super::config::Config;
use super::error::{DecodeError, Error};
use super::schema::Schema;
use super::types::{Field, FixFieldValue, FixFieldValueView, FixMessage, spec_text};
use crate::dict::{spec_find_message, Dictionary};
use crate::tagvalue::digits::{
    digits_of, parse_signed, parse_unsigned, spec_parse_signed, spec_parse_unsigned,
};
use crate::text::{ascii_chars, unsigned_to_string};
use rustc_hash::FxHashMap;
use vstd::prelude::*;
use vstd::string::StringExecFns;
use vstd::utf8::encode_utf8;

verus! {

/// The tag of a SEQUENCE.
pub const ASN1_SEQUENCE_TAG: u8 = 0x30;

/// The bits of a tag that tell its class and whether it is constructed.
pub const ASN1_CONTEXT_SPECIFIC_CONSTRUCTED_MASK: u8 = 0xE0;

/// A constructed tag of the context-specific class.
pub const ASN1_CONTEXT_SPECIFIC_CONSTRUCTED_TAG: u8 = 0xA0;

/// The first byte of a length in the long form with two bytes.
pub const ASN1_LONG_FORM_LENGTH_2_BYTES: u8 = 0x82;

/// The fields of a decoded message by tag.
pub type ValueTable = FxHashMap<u32, FixFieldValue>;

/// `HashMap::insert` on a map with the Fx hasher: the map holds the pair
/// afterwards, in place of any value that the key had.
#[verifier::external_body]
pub(crate) fn values_insert(table: &mut ValueTable, tag: u32, value: FixFieldValue)
    ensures
        final(table)@ == old(table)@.insert(tag, value),
{
    table.insert(tag, value);
}

/// `HashMap::get` on a map with the Fx hasher: the value of the key, where
/// the map has one.
#[verifier::external_body]
pub(crate) fn values_get<'a>(table: &'a ValueTable, tag: u32) -> (r: Option<&'a FixFieldValue>)
    ensures
        r == (if table@.contains_key(tag) {
            Some(&table@[tag])
        } else {
            None
        }),
{
    table.get(&tag)
}

/// The fields of a table as plain values.
pub open spec fn spec_values(table: Map<u32, FixFieldValue>) -> Map<u32, FixFieldValueView> {
    Map::new(|tag: u32| table.contains_key(tag), |tag: u32| table[tag]@)
}

/// The fields `fields[..n]` added to `base`, the later of two fields with
/// one tag in place of the earlier.
pub open spec fn spec_with_fields(base: Map<u32, FixFieldValueView>, fields: Seq<Field>, n: int) -> Map<
    u32,
    FixFieldValueView,
>
    decreases n,
{
    if n <= 0 {
        base
    } else {
        spec_with_fields(base, fields, n - 1).insert(fields[n - 1].tag, fields[n - 1].value@)
    }
}

/// The fields of a message by tag: type, sender, target and sequence
/// number under 35, 49, 56 and 34, and then the fields of its list.
pub open spec fn spec_message_fields(msg: FixMessage) -> Map<u32, FixFieldValueView> {
    spec_with_fields(
        Map::empty().insert(35u32, FixFieldValueView::String(msg.msg_type@)).insert(
            49u32,
            FixFieldValueView::String(msg.sender_comp_id@),
        ).insert(56u32, FixFieldValueView::String(msg.target_comp_id@)).insert(
            34u32,
            FixFieldValueView::UnsignedInteger(msg.msg_seq_num),
        ),
        msg.fields@,
        msg.fields@.len() as int,
    )
}

/// A message that was decoded from ASN.1.
#[derive(Debug)]
pub struct DecodedMessage {
    raw: Vec<u8>,
    inner: FixMessage,
    fields: ValueTable,
}

/// The name of a field in a complaint: `Tag` and its number.
pub open spec fn spec_tag_name(tag: u32) -> Seq<char> {
    "Tag "@ + ascii_chars(digits_of(tag as nat))
}

/// What a field is as a signed integer.
pub enum IntView {
    /// The message has no such field.
    Absent,
    /// The number.
    Value(i64),
    /// The field is no such number; the text says why.
    Complaint(Seq<char>),
}

/// What a field is as a signed integer: an integer as it is, an unsigned
/// integer where it fits, and any other value where its text is a number.
pub open spec fn spec_get_int(fields: Map<u32, FixFieldValueView>, tag: u32) -> IntView {
    if !fields.contains_key(tag) {
        IntView::Absent
    } else {
        match fields[tag] {
            FixFieldValueView::Integer(i) => IntView::Value(i),
            FixFieldValueView::UnsignedInteger(u) => if u <= i64::MAX as u64 {
                IntView::Value(u as i64)
            } else {
                IntView::Complaint(
                    "Unsigned integer value exceeds i64::MAX and cannot be converted to signed integer"@,
                )
            },
            other => match spec_parse_signed(
                encode_utf8(spec_text(other)),
                i64::MIN as int,
                i64::MAX as int,
            ) {
                Some(i) => IntView::Value(i as i64),
                None => IntView::Complaint("Invalid integer format"@),
            },
        }
    }
}

/// What a field is as an unsigned integer.
pub enum UIntView {
    /// The message has no such field.
    Absent,
    /// The number.
    Value(u64),
    /// The field is no such number; the text says why.
    Complaint(Seq<char>),
}

/// What a field is as an unsigned integer: an unsigned integer as it is,
/// an integer where it is not negative, and any other value where its
/// text is a number.
pub open spec fn spec_get_uint(fields: Map<u32, FixFieldValueView>, tag: u32) -> UIntView {
    if !fields.contains_key(tag) {
        UIntView::Absent
    } else {
        match fields[tag] {
            FixFieldValueView::UnsignedInteger(u) => UIntView::Value(u),
            FixFieldValueView::Integer(i) => if i >= 0 {
                UIntView::Value(i as u64)
            } else {
                UIntView::Complaint("Negative value cannot be converted to unsigned integer"@)
            },
            other => match spec_parse_unsigned(encode_utf8(spec_text(other)), u64::MAX as nat) {
                Some(u) => UIntView::Value(u as u64),
                None => UIntView::Complaint("Invalid unsigned integer format"@),
            },
        }
    }
}

/// What a field is as a boolean: a boolean as it is, and any other value
/// where its text is `Y` or `N`.
pub open spec fn spec_get_bool(fields: Map<u32, FixFieldValueView>, tag: u32) -> Option<bool> {
    if !fields.contains_key(tag) {
        None
    } else {
        match fields[tag] {
            FixFieldValueView::Boolean(b) => Some(b),
            other => if encode_utf8(spec_text(other)) == seq![0x59u8] {
                Some(true)
            } else if encode_utf8(spec_text(other)) == seq![0x4eu8] {
                Some(false)
            } else {
                None
            },
        }
    }
}

/// A complaint about the field with `tag`.
fn violation(tag: u32, reason: &str) -> (r: Error)
    ensures
        r matches Error::Decode(DecodeError::ConstraintViolation { field, reason: text })
            && field@ == spec_tag_name(tag) && text@ == reason@,
{
    Error::Decode(
        DecodeError::ConstraintViolation {
            field: String::from_str("Tag ").concat(unsigned_to_string(tag as u64).as_str()),
            reason: String::from_str(reason),
        },
    )
}

impl DecodedMessage {
    /// The bytes that the message was decoded from.
    pub closed spec fn raw(&self) -> Seq<u8> {
        self.raw@
    }

    /// The message as the ASN.1 library gave it.
    pub closed spec fn inner(&self) -> FixMessage {
        self.inner
    }

    /// The fields of the message by tag.
    pub closed spec fn fields(&self) -> Map<u32, FixFieldValueView> {
        spec_values(self.fields@)
    }

    /// The message `inner` that was decoded from `raw`, with its fields
    /// laid out for access by tag.
    pub fn new(raw: Vec<u8>, inner: FixMessage) -> (r: DecodedMessage)
        ensures
            r.raw() == raw@,
            r.inner() == inner,
            r.fields() == spec_message_fields(inner),
    {
        let mut fields: ValueTable = FxHashMap::default();
        values_insert(&mut fields, 35, FixFieldValue::String(inner.msg_type.clone()));
        values_insert(&mut fields, 49, FixFieldValue::String(inner.sender_comp_id.clone()));
        values_insert(&mut fields, 56, FixFieldValue::String(inner.target_comp_id.clone()));
        values_insert(&mut fields, 34, FixFieldValue::UnsignedInteger(inner.msg_seq_num));
        let ghost base = Map::<u32, FixFieldValueView>::empty().insert(
            35u32,
            FixFieldValueView::String(inner.msg_type@),
        ).insert(49u32, FixFieldValueView::String(inner.sender_comp_id@)).insert(
            56u32,
            FixFieldValueView::String(inner.target_comp_id@),
        ).insert(34u32, FixFieldValueView::UnsignedInteger(inner.msg_seq_num));
        assert(spec_values(fields@) =~= base);
        let mut i: usize = 0;
        while i < inner.fields.len()
            invariant
                i <= inner.fields.len(),
                spec_values(fields@) == spec_with_fields(base, inner.fields@, i as int),
            decreases inner.fields.len() - i,
        {
            let ghost before = fields@;
            let value: FixFieldValue = inner.fields[i].value.clone();
            values_insert(&mut fields, inner.fields[i].tag, value);
            assert(spec_values(fields@) =~= spec_values(before).insert(
                inner.fields@[i as int].tag,
                inner.fields@[i as int].value@,
            ));
            i = i + 1;
        }
        DecodedMessage { raw, inner, fields }
    }

    /// The type of the message.
    pub fn msg_type(&self) -> (r: &str)
        ensures
            r@ == self.inner().msg_type@,
    {
        self.inner.msg_type.as_str()
    }

    /// The sender of the message.
    pub fn sender_comp_id(&self) -> (r: &str)
        ensures
            r@ == self.inner().sender_comp_id@,
    {
        self.inner.sender_comp_id.as_str()
    }

    /// The target of the message.
    pub fn target_comp_id(&self) -> (r: &str)
        ensures
            r@ == self.inner().target_comp_id@,
    {
        self.inner.target_comp_id.as_str()
    }

    /// The sequence number of the message.
    pub fn msg_seq_num(&self) -> (r: u64)
        ensures
            r == self.inner().msg_seq_num,
    {
        self.inner.msg_seq_num
    }

    /// The field with `tag` as text, if the message has it.
    pub fn get_field(&self, tag: u32) -> (r: Option<String>)
        ensures
            self.fields().contains_key(tag) ==> (r matches Some(text) && text@ == spec_text(
                self.fields()[tag],
            )),
            !self.fields().contains_key(tag) ==> r is None,
    {
        match values_get(&self.fields, tag) {
            Some(value) => Some(value.to_string()),
            None => None,
        }
    }

    /// The field with `tag` as text, if the message has it.
    pub fn get_string(&self, tag: u32) -> (r: Option<String>)
        ensures
            self.fields().contains_key(tag) ==> (r matches Some(text) && text@ == spec_text(
                self.fields()[tag],
            )),
            !self.fields().contains_key(tag) ==> r is None,
    {
        self.get_field(tag)
    }

    /// The field with `tag` as a signed integer, if the message has it.
    pub fn get_int(&self, tag: u32) -> (r: Result<Option<i64>, Error>)
        ensures
            match spec_get_int(self.fields(), tag) {
                IntView::Absent => r matches Ok(None),
                IntView::Value(i) => r matches Ok(Some(got)) && got == i,
                IntView::Complaint(why) => r matches Err(
                    Error::Decode(DecodeError::ConstraintViolation { field, reason }),
                ) && field@ == spec_tag_name(tag) && reason@ == why,
            },
    {
        match values_get(&self.fields, tag) {
            Some(FixFieldValue::Integer(i)) => Ok(Some(*i)),
            Some(FixFieldValue::UnsignedInteger(u)) => {
                // The number has to fit.
                if *u <= i64::MAX as u64 {
                    Ok(Some(*u as i64))
                } else {
                    Err(
                        violation(
                            tag,
                            "Unsigned integer value exceeds i64::MAX and cannot be converted to signed integer",
                        ),
                    )
                }
            },
            Some(field_value) => {
                // Any other value counts by its text.
                let text: String = field_value.to_string();
                match parse_signed(text.as_str().as_bytes(), i64::MIN, i64::MAX) {
                    Some(i) => Ok(Some(i)),
                    None => Err(violation(tag, "Invalid integer format")),
                }
            },
            None => Ok(None),
        }
    }

    /// The field with `tag` as an unsigned integer, if the message has
    /// it.
    pub fn get_uint(&self, tag: u32) -> (r: Result<Option<u64>, Error>)
        ensures
            match spec_get_uint(self.fields(), tag) {
                UIntView::Absent => r matches Ok(None),
                UIntView::Value(u) => r matches Ok(Some(got)) && got == u,
                UIntView::Complaint(why) => r matches Err(
                    Error::Decode(DecodeError::ConstraintViolation { field, reason }),
                ) && field@ == spec_tag_name(tag) && reason@ == why,
            },
    {
        match values_get(&self.fields, tag) {
            Some(FixFieldValue::UnsignedInteger(u)) => Ok(Some(*u)),
            Some(FixFieldValue::Integer(i)) => {
                if *i >= 0 {
                    Ok(Some(*i as u64))
                } else {
                    Err(violation(tag, "Negative value cannot be converted to unsigned integer"))
                }
            },
            Some(field_value) => {
                // Any other value counts by its text.
                let text: String = field_value.to_string();
                match parse_unsigned(text.as_str().as_bytes(), u64::MAX) {
                    Some(u) => Ok(Some(u)),
                    None => Err(violation(tag, "Invalid unsigned integer format")),
                }
            },
            None => Ok(None),
        }
    }

    /// The field with `tag` as a boolean, if the message has it and it is
    /// one.
    pub fn get_bool(&self, tag: u32) -> (r: Option<bool>)
        ensures
            r == spec_get_bool(self.fields(), tag),
    {
        match values_get(&self.fields, tag) {
            None => None,
            Some(FixFieldValue::Boolean(b)) => Some(*b),
            Some(other) => {
                let text: String = other.to_string();
                let bytes: &[u8] = text.as_str().as_bytes();
                proof {
                    if bytes@.len() == 1 {
                        assert(bytes@ =~= seq![bytes@[0]]);
                    }
                }
                if bytes.len() == 1 && bytes[0] == 0x59 {
                    Some(true)
                } else if bytes.len() == 1 && bytes[0] == 0x4e {
                    Some(false)
                } else {
                    None
                }
            },
        }
    }

    /// The bytes that the message was decoded from.
    pub fn as_bytes(&self) -> (r: &[u8])
        ensures
            r@ == self.raw(),
    {
        self.raw.as_slice()
    }
}

/// What is wrong with bytes that are to be decoded, before anything is
/// known of what they hold.
pub open spec fn spec_check_input(len: int, max_message_size: usize) -> Option<DecodeError> {
    if len == 0 {
        Some(DecodeError::UnexpectedEof { offset: 0, needed: 1 })
    } else if len > max_message_size {
        Some(DecodeError::MessageTooLarge { size: len as usize, max_size: max_message_size })
    } else {
        None
    }
}

/// A decoder of messages in ASN.1.
#[derive(Debug)]
pub struct Decoder {
    config: Config,
    schema: Schema,
}

impl Decoder {
    /// The settings of the decoder.
    pub closed spec fn spec_config(&self) -> Config {
        self.config
    }

    /// The dictionary of the decoder.
    pub closed spec fn spec_dictionary(&self) -> Dictionary {
        self.schema.spec_dictionary()
    }

    /// A decoder with the settings `config` for the messages of
    /// `dictionary`.
    pub fn new(config: Config, dictionary: Dictionary) -> (r: Decoder)
        ensures
            r.spec_config() == config,
            r.spec_dictionary() == dictionary,
    {
        Decoder { config, schema: Schema::new(dictionary) }
    }

    /// The settings of the decoder.
    pub fn config(&self) -> (r: &Config)
        ensures
            *r == self.spec_config(),
    {
        &self.config
    }

    /// The settings of the decoder, to change them.
    pub fn config_mut(&mut self) -> (r: &mut Config)
        ensures
            *r == old(self).spec_config(),
            *final(r) == final(self).spec_config(),
            final(self).spec_dictionary() == old(self).spec_dictionary(),
    {
        &mut self.config
    }

    /// Checks bytes before they are decoded: there have to be some, and no
    /// more than the largest message has.
    pub fn check_input(&self, data: &[u8]) -> (r: Result<(), Error>)
        ensures
            match spec_check_input(data@.len() as int, self.spec_config().max_message_size) {
                None => r is Ok,
                Some(e) => r == Err::<(), Error>(Error::Decode(e)),
            },
    {
        if data.len() == 0 {
            return Err(Error::Decode(DecodeError::UnexpectedEof { offset: 0, needed: 1 }));
        }
        if data.len() > self.config.max_message_size {
            return Err(
                Error::Decode(
                    DecodeError::MessageTooLarge {
                        size: data.len(),
                        max_size: self.config.max_message_size,
                    },
                ),
            );
        }
        Ok(())
    }

    /// Checks a message that was decoded: the dictionary has to know its
    /// type.
    pub fn validate_message(&self, msg: &FixMessage) -> (r: Result<(), Error>)
        ensures
            spec_find_message(self.spec_dictionary().messages@, msg.msg_type@) is Some ==> r is Ok,
            spec_find_message(self.spec_dictionary().messages@, msg.msg_type@) is None ==> (
            r matches Err(Error::Decode(DecodeError::ConstraintViolation { field, reason }))
                && field@ == "MsgType"@ && reason@ == "Unknown message type: "@ + msg.msg_type@),
    {
        if self.schema.get_message_schema(msg.msg_type.as_str()).is_none() {
            return Err(
                Error::Decode(
                    DecodeError::ConstraintViolation {
                        field: String::from_str("MsgType"),
                        reason: String::from_str("Unknown message type: ").concat(
                            msg.msg_type.as_str(),
                        ),
                    },
                ),
            );
        }
        Ok(())
    }

    /// Finishes the decoding of `data`: `decoded` is what the ASN.1
    /// library made of the bytes, a message or the text of its complaint.
    /// The message is validated where the settings ask for it.
    pub fn finish(&self, data: &[u8], decoded: Result<FixMessage, String>) -> (r: Result<
        DecodedMessage,
        Error,
    >)
        ensures
            match decoded {
                Err(text) => r matches Err(Error::Decode(DecodeError::Internal(got))) && got@
                    == text@,
                Ok(msg) => if self.spec_config().validate_checksums && spec_find_message(
                    self.spec_dictionary().messages@,
                    msg.msg_type@,
                ) is None {
                    r matches Err(Error::Decode(DecodeError::ConstraintViolation { field, reason }))
                        && field@ == "MsgType"@ && reason@ == "Unknown message type: "@
                        + msg.msg_type@
                } else {
                    r matches Ok(message) && message.raw() == data@ && message.inner() == msg
                        && message.fields() == spec_message_fields(msg)
                },
            },
    {
        let fix_msg: FixMessage = match decoded {
            Ok(msg) => msg,
            Err(text) => {
                return Err(Error::Decode(DecodeError::Internal(text)));
            },
        };
        if self.config.validate_checksums {
            match self.validate_message(&fix_msg) {
                Err(e) => {
                    return Err(e);
                },
                Ok(()) => {},
            }
        }
        Ok(DecodedMessage::new(vstd::slice::slice_to_vec(data), fix_msg))
    }
}

/// Where a streaming decoder stands.
#[derive(Debug, Clone, Copy, PartialEq, Eq, Structural)]
pub enum DecoderState {
    /// It waits for the tag of a message.
    WaitingForMessage,
    /// It reads the length of a message, which starts at `offset`.
    ReadingLength { offset: usize },
    /// It reads a message of `length` bytes, which start at `offset`.
    ReadingMessage { length: usize, offset: usize },
}

/// Whether a byte may be the tag that starts a message: any byte but 0.
pub open spec fn spec_is_plausible_start_tag(tag: u8) -> bool {
    tag != 0
}

/// The number that bytes denote, the most significant first.
pub open spec fn spec_big_endian(bytes: Seq<u8>) -> nat
    decreases bytes.len(),
{
    if bytes.len() == 0 {
        0
    } else {
        spec_big_endian(bytes.drop_last()) * 256 + bytes.last() as nat
    }
}

/// What stands at `offset` of a buffer as the length of a message.
pub enum LengthView {
    /// The buffer ends before the length does.
    NeedMore,
    /// The length is not encoded as it has to be.
    Invalid,
    /// The length, and the number of bytes that it takes.
    Found { length: nat, consumed: nat },
}

/// Reads the length at `offset`. A first byte below 128 is the length
/// itself. Any other first byte says in its lower seven bits how many
/// bytes follow with the length in them, the most significant first: one
/// to four.
pub open spec fn spec_decode_length(buffer: Seq<u8>, offset: int) -> LengthView {
    if offset < 0 || offset >= buffer.len() {
        LengthView::NeedMore
    } else if buffer[offset] < 0x80 {
        LengthView::Found { length: buffer[offset] as nat, consumed: 1 }
    } else {
        let num_bytes = buffer[offset] - 0x80;
        if num_bytes == 0 || num_bytes > 4 {
            LengthView::Invalid
        } else if offset + 1 + num_bytes > buffer.len() {
            LengthView::NeedMore
        } else {
            LengthView::Found {
                length: spec_big_endian(buffer.subrange(offset + 1, offset + 1 + num_bytes)),
                consumed: (1 + num_bytes) as nat,
            }
        }
    }
}

/// What a buffer holds at its start.
pub enum FramingView {
    /// The start of a message: more bytes are needed.
    NeedMore,
    /// No message starts like this.
    Bad(DecodeError),
    /// A whole message of this many bytes.
    Frame(nat),
}

/// Looks for a message at the start of a buffer: a tag, a length, and as
/// many bytes as the length says. A message that would be larger than
/// `max` is refused as soon as its length is known.
pub open spec fn spec_framing(buffer: Seq<u8>, max: usize) -> FramingView {
    if buffer.len() == 0 {
        FramingView::NeedMore
    } else if !spec_is_plausible_start_tag(buffer[0]) {
        FramingView::Bad(DecodeError::InvalidTag { tag: buffer[0], offset: 0 })
    } else {
        match spec_decode_length(buffer, 1) {
            LengthView::NeedMore => FramingView::NeedMore,
            LengthView::Invalid => FramingView::Bad(DecodeError::InvalidLength { offset: 1 }),
            LengthView::Found { length, consumed } => if length > max {
                FramingView::Bad(
                    DecodeError::MessageTooLarge { size: length as usize, max_size: max },
                )
            } else if buffer.len() >= 1 + consumed + length {
                FramingView::Frame(1 + consumed + length)
            } else {
                FramingView::NeedMore
            },
        }
    }
}

/// Tests whether a byte may be the tag that starts a message. A tag of 0
/// is reserved; every other byte is a tag of one of the four classes.
pub fn is_plausible_start_tag(tag: u8) -> (r: bool)
    ensures
        r == spec_is_plausible_start_tag(tag),
{
    if tag == 0x00 {
        return false;
    }
    // The universal class, primitive and constructed.
    if 0x01 <= tag && tag <= 0x3F {
        return true;
    }
    // The application class.
    if 0x40 <= tag && tag <= 0x7F {
        return true;
    }
    // The context-specific class.
    if 0x80 <= tag && tag <= 0xBF {
        return true;
    }
    // The private class.
    if tag >= 0xC0 {
        return true;
    }
    false
}

/// Reads the length that stands at `offset` of `buffer`.
pub fn decode_length(buffer: &[u8], offset: usize) -> (r: Result<Option<(usize, usize)>, Error>)
    ensures
        match spec_decode_length(buffer@, offset as int) {
            LengthView::NeedMore => r matches Ok(None),
            LengthView::Invalid => r == Err::<Option<(usize, usize)>, Error>(
                Error::Decode(DecodeError::InvalidLength { offset }),
            ),
            LengthView::Found { length, consumed } => r matches Ok(Some((l, c))) && l == length
                && c == consumed,
        },
        r matches Ok(Some((l, c))) ==> 1 <= c <= 5 && offset + c <= buffer@.len(),
{
    if offset >= buffer.len() {
        return Ok(None);
    }
    let first_byte: u8 = buffer[offset];
    if first_byte < 0x80 {
        // The short form.
        Ok(Some((first_byte as usize, 1)))
    } else {
        // The long form.
        let num_bytes: usize = (first_byte - 0x80) as usize;
        if num_bytes == 0 || num_bytes > 4 {
            return Err(Error::Decode(DecodeError::InvalidLength { offset }));
        }
        if num_bytes > buffer.len() - offset - 1 {
            return Ok(None);
        }
        let ghost digits = buffer@.subrange(offset + 1, offset + 1 + num_bytes);
        let mut length: usize = 0;
        let mut i: usize = 0;
        proof {
            assert(digits.take(0) =~= Seq::<u8>::empty());
        }
        while i < num_bytes
            invariant
                i <= num_bytes <= 4,
                offset + 1 + num_bytes <= buffer.len(),
                digits == buffer@.subrange(offset + 1, offset + 1 + num_bytes),
                length == spec_big_endian(digits.take(i as int)),
                length < pow256(i as nat),
            decreases num_bytes - i,
        {
            proof {
                assert(digits.take(i + 1).drop_last() =~= digits.take(i as int));
                assert(digits.take(i + 1).last() == buffer@[offset + 1 + i]);
                reveal_with_fuel(pow256, 5);
            }
            length = length * 256 + buffer[offset + 1 + i] as usize;
            i = i + 1;
        }
        proof {
            assert(digits.take(i as int) =~= digits);
        }
        Ok(Some((length, 1 + num_bytes)))
    }
}

/// 256 to the power of `n`.
pub open spec fn pow256(n: nat) -> nat
    decreases n,
{
    if n == 0 {
        1
    } else {
        256 * pow256((n - 1) as nat)
    }
}

/// A decoder of messages in ASN.1 that is fed bytes as they arrive. It
/// finds the messages in the bytes; a caller has each one decoded and
/// takes it out of the buffer.
#[derive(Debug)]
pub struct DecoderStreaming {
    decoder: Decoder,
    buffer: Vec<u8>,
    state: DecoderState,
}

/// What one step of a streaming decoder gives: the state that it reaches,
/// and what it has to say.
pub struct StepView {
    pub state: DecoderState,
    /// `Ok(Some(n))` for a whole message of `n` bytes at the start of the
    /// buffer, `Ok(None)` where more bytes are needed.
    pub result: Result<Option<usize>, DecodeError>,
}

/// The steps of a streaming decoder from `state` on, until it has a
/// message, needs more bytes or takes offence.
pub open spec fn spec_poll(state: DecoderState, buffer: Seq<u8>, max: usize) -> StepView {
    match state {
        DecoderState::WaitingForMessage => if buffer.len() == 0 {
            StepView { state, result: Ok(None) }
        } else if !spec_is_plausible_start_tag(buffer[0]) {
            StepView { state, result: Err(DecodeError::InvalidTag { tag: buffer[0], offset: 0 }) }
        } else {
            spec_poll_length(1, buffer, max)
        },
        DecoderState::ReadingLength { offset } => spec_poll_length(offset, buffer, max),
        DecoderState::ReadingMessage { length, offset } => spec_poll_message(
            length,
            offset,
            buffer,
        ),
    }
}

/// The steps of a streaming decoder that reads a length at `offset`.
pub open spec fn spec_poll_length(offset: usize, buffer: Seq<u8>, max: usize) -> StepView {
    let state = DecoderState::ReadingLength { offset };
    match spec_decode_length(buffer, offset as int) {
        LengthView::NeedMore => StepView { state, result: Ok(None) },
        LengthView::Invalid => StepView {
            state,
            result: Err(DecodeError::InvalidLength { offset }),
        },
        LengthView::Found { length, consumed } => if length > max {
            StepView {
                state,
                result: Err(DecodeError::MessageTooLarge { size: length as usize, max_size: max }),
            }
        } else {
            spec_poll_message(length as usize, (offset + consumed) as usize, buffer)
        },
    }
}

/// The step of a streaming decoder that reads a message of `length` bytes
/// at `offset`.
pub open spec fn spec_poll_message(length: usize, offset: usize, buffer: Seq<u8>) -> StepView {
    let state = DecoderState::ReadingMessage { length, offset };
    if buffer.len() >= offset + length {
        StepView { state, result: Ok(Some((offset + length) as usize)) }
    } else {
        StepView { state, result: Ok(None) }
    }
}

/// A decoder that waits for a message finds what stands at the start of
/// its buffer.
pub proof fn lemma_poll_is_framing(buffer: Seq<u8>, max: usize)
    requires
        buffer.len() <= usize::MAX,
    ensures
        match spec_framing(buffer, max) {
            FramingView::NeedMore => spec_poll(DecoderState::WaitingForMessage, buffer, max).result
                == Ok::<Option<usize>, DecodeError>(None),
            FramingView::Bad(e) => spec_poll(DecoderState::WaitingForMessage, buffer, max).result
                == Err::<Option<usize>, DecodeError>(e),
            FramingView::Frame(n) => spec_poll(DecoderState::WaitingForMessage, buffer, max).result
                == Ok::<Option<usize>, DecodeError>(Some(n as usize)),
        },
{
}

/// Whether a state is one that a streaming decoder gets into by itself: a
/// length is read behind the tag, and a message behind its length.
pub open spec fn spec_in_step(state: DecoderState) -> bool {
    match state {
        DecoderState::WaitingForMessage => true,
        DecoderState::ReadingLength { offset } => offset == 1,
        DecoderState::ReadingMessage { length, offset } => 2 <= offset <= 6,
    }
}

impl DecoderStreaming {
    /// The bytes that were fed and not taken out.
    pub closed spec fn buffered(&self) -> Seq<u8> {
        self.buffer@
    }

    /// Where the decoder stands.
    pub closed spec fn spec_state(&self) -> DecoderState {
        self.state
    }

    /// The settings of the decoder.
    pub closed spec fn spec_config(&self) -> Config {
        self.decoder.spec_config()
    }

    /// A streaming decoder with the settings `config` for the messages of
    /// `dictionary`. Its buffer is empty.
    pub fn new(config: Config, dictionary: Dictionary) -> (r: DecoderStreaming)
        ensures
            r.buffered() == Seq::<u8>::empty(),
            r.spec_state() == DecoderState::WaitingForMessage,
            r.spec_config() == config,
    {
        let buffer_size: usize = config.stream_buffer_size;
        DecoderStreaming {
            decoder: Decoder::new(config, dictionary),
            buffer: Vec::with_capacity(buffer_size),
            state: DecoderState::WaitingForMessage,
        }
    }

    /// Where the decoder stands.
    pub fn state(&self) -> (r: DecoderState)
        ensures
            r == self.spec_state(),
    {
        self.state
    }

    /// The decoder that decodes the messages.
    pub fn decoder(&self) -> (r: &Decoder)
        ensures
            r.spec_config() == self.spec_config(),
    {
        &self.decoder
    }

    /// Appends bytes that arrived.
    pub fn feed(&mut self, data: &[u8])
        ensures
            final(self).buffered() == old(self).buffered() + data@,
            final(self).spec_state() == old(self).spec_state(),
            final(self).spec_config() == old(self).spec_config(),
    {
        self.buffer.extend_from_slice(data);
    }

    /// Looks for the next message: `Ok(Some(n))` says that the first `n`
    /// bytes of the buffer are one, `Ok(None)` that more bytes are
    /// needed. The buffer stays what it is.
    pub fn poll(&mut self) -> (r: Result<Option<usize>, Error>)
        ensures
            final(self).buffered() == old(self).buffered(),
            final(self).spec_config() == old(self).spec_config(),
            ({
                let step = spec_poll(
                    old(self).spec_state(),
                    old(self).buffered(),
                    old(self).spec_config().max_message_size,
                );
                &&& final(self).spec_state() == step.state
                &&& match step.result {
                    Ok(found) => r == Ok::<Option<usize>, Error>(found),
                    Err(e) => r == Err::<Option<usize>, Error>(Error::Decode(e)),
                }
                &&& r matches Ok(Some(n)) ==> n <= final(self).buffered().len()
                &&& spec_in_step(old(self).spec_state()) ==> spec_in_step(final(self).spec_state()) && (
                r matches Ok(Some(n)) ==> n >= 2)
            }),
    {
        let max: usize = self.decoder.config.max_message_size;
        if let DecoderState::WaitingForMessage = self.state {
            if self.buffer.len() == 0 {
                return Ok(None);
            }
            // A message starts with a tag.
            let tag: u8 = self.buffer[0];
            if !is_plausible_start_tag(tag) {
                return Err(Error::Decode(DecodeError::InvalidTag { tag, offset: 0 }));
            }
            self.state = DecoderState::ReadingLength { offset: 1 };
        }
        if let DecoderState::ReadingLength { offset } = self.state {
            match decode_length(self.buffer.as_slice(), offset) {
                Err(e) => {
                    return Err(e);
                },
                Ok(None) => {
                    return Ok(None);
                },
                Ok(Some((length, consumed))) => {
                    let available: usize = self.buffer.len();
                    assert(offset + consumed <= available);
                    // No message may be larger than the settings allow.
                    if length > max {
                        return Err(
                            Error::Decode(
                                DecodeError::MessageTooLarge { size: length, max_size: max },
                            ),
                        );
                    }
                    self.state = DecoderState::ReadingMessage {
                        length,
                        offset: offset + consumed,
                    };
                    assert(spec_in_step(old(self).state) ==> offset == 1);
                },
            }
        }
        match self.state {
            DecoderState::ReadingMessage { length, offset } => {
                if offset <= self.buffer.len() && length <= self.buffer.len() - offset {
                    Ok(Some(offset + length))
                } else {
                    Ok(None)
                }
            },
            _ => Ok(None),
        }
    }

    /// The first `n` bytes of the buffer.
    pub fn frame(&self, n: usize) -> (r: &[u8])
        requires
            n <= self.buffered().len(),
        ensures
            r@ == self.buffered().take(n as int),
    {
        let r = vstd::slice::slice_subrange(self.buffer.as_slice(), 0, n);
        assert(r@ =~= self.buffer@.take(n as int));
        r
    }

    /// Takes the first `n` bytes out of the buffer, after the message in
    /// them was decoded. The decoder waits for the next message then.
    pub fn consume(&mut self, n: usize)
        requires
            n <= old(self).buffered().len(),
        ensures
            final(self).buffered() == old(self).buffered().skip(n as int),
            final(self).spec_state() == DecoderState::WaitingForMessage,
            final(self).spec_config() == old(self).spec_config(),
    {
        let rest: Vec<u8> = self.buffer.split_off(n);
        self.buffer = rest;
        self.state = DecoderState::WaitingForMessage;
        assert(self.buffer@ =~= old(self).buffer@.skip(n as int));
    }

    /// The number of bytes that wait in the buffer.
    pub fn buffered_bytes(&self) -> (r: usize)
        ensures
            r == self.buffered().len(),
    {
        self.buffer.len()
    }

    /// Empties the buffer and waits for a message.
    pub fn clear(&mut self)
        ensures
            final(self).buffered() == Seq::<u8>::empty(),
            final(self).spec_state() == DecoderState::WaitingForMessage,
            final(self).spec_config() == old(self).spec_config(),
    {
        self.buffer.clear();
        self.state = DecoderState::WaitingForMessage;
    }

    /// The number of bytes that the buffer has to hold before the decoder
    /// can take its next step.
    pub fn num_bytes_required(&self) -> (r: usize)
        ensures
            r == match self.spec_state() {
                DecoderState::WaitingForMessage => 1usize,
                DecoderState::ReadingLength { offset } => if offset < usize::MAX {
                    (offset + 1) as usize
                } else {
                    usize::MAX
                },
                DecoderState::ReadingMessage { length, offset } => if offset + length
                    <= usize::MAX {
                    (offset + length) as usize
                } else {
                    usize::MAX
                },
            },
    {
        match self.state {
            DecoderState::WaitingForMessage => 1,
            DecoderState::ReadingLength { offset } => if offset < usize::MAX {
                offset + 1
            } else {
                usize::MAX
            },
            DecoderState::ReadingMessage { length, offset } => if length <= usize::MAX - offset {
                offset + length
            } else {
                usize::MAX
            },
        }
    }
}

} // verus!
