//! Encoding of messages in ASN.1: how the message is put together, what is
//! checked before it is handed to the ASN.1 library, and what becomes of
//! the library's answer.
//!
//! The library itself is not called from here. A caller prepares the
//! message with the functions of this module, has it encoded with the
//! rules that they name, and hands the result back.
use super::config::{spec_options, Config, EncodingRule};
use super::error::{EncodeError, Error};
use super::field_types::{lossy_text, string_from_utf8_lossy};
use super::schema::Schema;
use super::types::{Field, FixFieldValue, FixFieldValueView, FixMessage, ToFixFieldValue};
use crate::dict::{spec_find_message, Dictionary, FieldDefinition, LayoutItem};
use crate::tagvalue::digits::{digits_of, parse_unsigned, spec_parse_unsigned};
use crate::text::{ascii_chars, unsigned_to_string};
use crate::traits::{string_from_utf8, FieldMap, FieldType};
use rustc_hash::FxHashSet;
use smallvec::SmallVec;
use std::cmp::Ordering;
use vstd::prelude::*;
use vstd::string::StringExecFns;
use vstd::utf8::{decode_utf8, valid_utf8};

verus! {

/// The tag of `BeginString`.
pub const BEGIN_STRING_TAG: u32 = 8;

/// The tag of `BodyLength`.
pub const BODY_LENGTH_TAG: u32 = 9;

/// The tag of `CheckSum`.
pub const CHECK_SUM_TAG: u32 = 10;

/// The tag of `MsgSeqNum`.
pub const MSG_SEQ_NUM_TAG: u32 = 34;

/// The tag of `MsgType`.
pub const MSG_TYPE_TAG: u32 = 35;

/// The tag of `SenderCompID`.
pub const SENDER_COMP_ID_TAG: u32 = 49;

/// The tag of `SendingTime`.
pub const SENDING_TIME_TAG: u32 = 52;

/// The tag of `TargetCompID`.
pub const TARGET_COMP_ID_TAG: u32 = 56;

/// The bytes that a message is taken to need besides its texts and
/// fields.
pub const BASE_ASN1_OVERHEAD: usize = 20;

/// The bytes that the tag of a field is taken to need.
pub const TAG_ENCODING_SIZE: usize = 5;

/// The bytes that an integer is taken to need.
pub const INTEGER_ESTIMATE_SIZE: usize = 8;

/// The bytes that a boolean needs.
pub const BOOLEAN_SIZE: usize = 1;

/// The bytes that the frame of a field is taken to need.
pub const FIELD_TLV_OVERHEAD: usize = 5;

/// The largest number of common tags that an encoder keeps.
pub const MAX_COMMON_TAGS: usize = 32;

/// Tags in a row. Kept in a `SmallVec<[u32; 32]>`.
#[verifier::external_body]
#[derive(Debug)]
pub struct TagList {
    inner: SmallVec<[u32; 32]>,
}

/// The tags that a list holds, in their order.
pub uninterp spec fn tags_of(list: TagList) -> Seq<u32>;

impl TagList {
    /// `SmallVec::new`: a vector without items.
    #[verifier::external_body]
    pub(crate) fn new() -> (r: TagList)
        ensures
            tags_of(r) == Seq::<u32>::empty(),
    {
        TagList { inner: SmallVec::new() }
    }

    /// `SmallVec::push`: the item is appended behind the others.
    #[verifier::external_body]
    pub(crate) fn push(&mut self, tag: u32)
        ensures
            tags_of(*final(self)) == tags_of(*old(self)).push(tag),
    {
        self.inner.push(tag)
    }

    /// `SmallVec::clear`: the vector has no items afterwards.
    #[verifier::external_body]
    pub(crate) fn clear(&mut self)
        ensures
            tags_of(*final(self)) == Seq::<u32>::empty(),
    {
        self.inner.clear()
    }

    /// `SmallVec::extend_from_slice`: the items of the slice are appended
    /// behind the others, in their order.
    #[verifier::external_body]
    pub(crate) fn extend_from_slice(&mut self, tags: &[u32])
        ensures
            tags_of(*final(self)) == tags_of(*old(self)) + tags@,
    {
        self.inner.extend_from_slice(tags)
    }

    /// `SmallVec::as_slice`: the items in their order.
    #[verifier::external_body]
    pub(crate) fn as_slice(&self) -> (r: &[u32])
        ensures
            r@ == tags_of(*self),
    {
        self.inner.as_slice()
    }
}

/// The tags that were dealt with.
pub type TagSet = FxHashSet<u32>;

/// `HashSet::insert` on a set with the Fx hasher: the set holds the value
/// afterwards.
#[verifier::external_body]
pub(crate) fn tags_insert(set: &mut TagSet, tag: u32)
    ensures
        final(set)@ == old(set)@.insert(tag),
{
    set.insert(tag);
}

/// `HashSet::contains` on a set with the Fx hasher: whether the set holds
/// the value.
#[verifier::external_body]
pub(crate) fn tags_contain(set: &TagSet, tag: u32) -> (r: bool)
    ensures
        r == set@.contains(tag),
{
    set.contains(&tag)
}

/// How two pairs of a tag and a count stand to each other where the
/// larger count comes first.
pub fn by_falling_count(a: &(u32, usize), b: &(u32, usize)) -> (r: Ordering)
    ensures
        r is Less <==> a.1 > b.1,
        r is Equal <==> a.1 == b.1,
        r is Greater <==> a.1 < b.1,
{
    if a.1 > b.1 {
        Ordering::Less
    } else if a.1 == b.1 {
        Ordering::Equal
    } else {
        Ordering::Greater
    }
}

/// Usage statistics in the order of `slice::sort_by` by falling count.
pub uninterp spec fn spec_by_falling_count(stats: Seq<(u32, usize)>) -> Seq<(u32, usize)>;

/// The pairs with the count `count`, in their order.
pub open spec fn spec_with_count(stats: Seq<(u32, usize)>, count: usize) -> Seq<(u32, usize)> {
    stats.filter(|pair: (u32, usize)| pair.1 == count)
}

/// Whether `sorted` is `stats` in the order of falling counts, sorted
/// stably: the same pairs, no count followed by a larger one, and the
/// pairs with the same count in the order that they had.
pub open spec fn spec_is_sorted_stably(sorted: Seq<(u32, usize)>, stats: Seq<(u32, usize)>) -> bool {
    &&& sorted.len() == stats.len()
    &&& sorted.to_multiset() == stats.to_multiset()
    &&& forall|i: int, j: int| 0 <= i <= j < sorted.len() ==> sorted[i].1 >= sorted[j].1
    &&& forall|count: usize| #[trigger]
        spec_with_count(sorted, count) == spec_with_count(stats, count)
}

/// `slice::sort_by` with `by_falling_count`: the same pairs, in an order
/// in which no count is followed by a larger one. The sort is stable:
/// pairs with the same count keep their order.
#[verifier::external_body]
pub(crate) fn sort_by_falling_count(stats: &mut Vec<(u32, usize)>)
    ensures
        final(stats)@ == spec_by_falling_count(old(stats)@),
        spec_is_sorted_stably(final(stats)@, old(stats)@),
{
    stats.sort_by(|a, b| by_falling_count(a, b));
}

/// Whether a tag belongs to the part of the header that every message
/// carries apart from its fields.
pub open spec fn spec_is_standard_header_field(tag: u32) -> bool {
    tag == BEGIN_STRING_TAG || tag == BODY_LENGTH_TAG || tag == CHECK_SUM_TAG || tag
        == MSG_SEQ_NUM_TAG || tag == MSG_TYPE_TAG || tag == SENDER_COMP_ID_TAG || tag
        == SENDING_TIME_TAG || tag == TARGET_COMP_ID_TAG
}

/// The tags that an encoder looks for first, until it is told better.
pub open spec fn spec_default_common_tags() -> Seq<u32> {
    seq![
        55u32,
        54u32,
        38u32,
        44u32,
        40u32,
        59u32,
        11u32,
        37u32,
        17u32,
        150u32,
        39u32,
        1u32,
        6u32,
        14u32,
        32u32,
        31u32,
        151u32,
        60u32,
        109u32,
        58u32,
        354u32,
        355u32,
    ]
}

/// The fields of a message as plain values.
pub open spec fn spec_fields_view(fields: Seq<Field>) -> Seq<(u32, FixFieldValueView)> {
    Seq::new(fields.len(), |i: int| (fields[i].tag, fields[i].value@))
}

/// What a pass over tags has collected: the fields for the message, and
/// the tags that were dealt with.
pub struct PassView {
    pub fields: Seq<(u32, FixFieldValueView)>,
    pub processed: Set<u32>,
}

/// One pass over `tags[..n]`: every tag that is no standard header field,
/// was not dealt with and has a value in `msg` gives a field with the
/// value as text. Where `mark` is set the tag counts as dealt with from
/// then on.
pub open spec fn spec_pass<'a, F: FieldMap<'a, u32>>(
    msg: &F,
    tags: Seq<u32>,
    n: int,
    mark: bool,
    start: PassView,
) -> PassView
    decreases n,
{
    if n <= 0 {
        start
    } else {
        let before = spec_pass(msg, tags, n - 1, mark, start);
        let tag = tags[n - 1];
        if spec_is_standard_header_field(tag) || before.processed.contains(tag) {
            before
        } else {
            match msg.spec_raw(tag) {
                None => before,
                Some(raw) => PassView {
                    fields: before.fields.push((tag, FixFieldValueView::String(lossy_text(raw)))),
                    processed: if mark {
                        before.processed.insert(tag)
                    } else {
                        before.processed
                    },
                },
            }
        }
    }
}

/// The tags of the fields of a layout.
pub open spec fn spec_layout_tags(layout: Seq<LayoutItem>) -> Seq<u32> {
    Seq::new(layout.len(), |i: int| layout[i].tag.spec_get())
}

/// The tags of the fields of a dictionary.
pub open spec fn spec_field_tags(fields: Seq<FieldDefinition>) -> Seq<u32> {
    Seq::new(fields.len(), |i: int| fields[i].tag)
}

/// The fields that an encoder adds to a message from `msg`: first those
/// with the common tags, then those of the layout of the type of message,
/// where the dictionary knows it, then those of all the fields of the
/// dictionary. No field of the standard header is among them, and no tag
/// of the first two passes comes twice.
pub open spec fn spec_added_fields<'a, F: FieldMap<'a, u32>>(
    msg: &F,
    common: Seq<u32>,
    dictionary: Dictionary,
    msg_type: Seq<char>,
) -> Seq<(u32, FixFieldValueView)> {
    let first = spec_pass(
        msg,
        common,
        common.len() as int,
        true,
        PassView { fields: Seq::empty(), processed: Set::empty() },
    );
    let second = match spec_find_message(dictionary.messages@, msg_type) {
        Some(i) => spec_pass(
            msg,
            spec_layout_tags(dictionary.messages@[i].layout@),
            dictionary.messages@[i].layout@.len() as int,
            true,
            first,
        ),
        None => first,
    };
    spec_pass(
        msg,
        spec_field_tags(dictionary.fields@),
        dictionary.fields@.len() as int,
        false,
        second,
    ).fields
}

/// What a required text field of a message is.
pub enum RequiredView<T> {
    /// The value.
    Value(T),
    /// The message has no such field.
    Missing,
    /// The value is no text, or not the number that was asked for; the
    /// text says which.
    Invalid(Seq<char>),
}

/// The text of a required field.
pub open spec fn spec_required_string<'a, F: FieldMap<'a, u32>>(msg: &F, tag: u32) -> RequiredView<
    Seq<char>,
> {
    match msg.spec_raw(tag) {
        None => RequiredView::Missing,
        Some(raw) => if valid_utf8(raw) {
            RequiredView::Value(decode_utf8(raw))
        } else {
            RequiredView::Invalid("Invalid UTF-8 in field value"@)
        },
    }
}

/// The number of a required field.
pub open spec fn spec_required_u64<'a, F: FieldMap<'a, u32>>(msg: &F, tag: u32) -> RequiredView<
    u64,
> {
    match msg.spec_raw(tag) {
        None => RequiredView::Missing,
        Some(raw) => if !valid_utf8(raw) {
            RequiredView::Invalid("Invalid UTF-8 in field value"@)
        } else {
            match spec_parse_unsigned(raw, u64::MAX as nat) {
                Some(n) => RequiredView::Value(n as u64),
                None => RequiredView::Invalid("Invalid u64 value"@),
            }
        },
    }
}

/// Whether an error says that the required field `tag` is missing.
pub open spec fn spec_is_missing(e: Error, tag: u32) -> bool {
    e matches Error::Encode(EncodeError::RequiredFieldMissing { tag: t, name }) && t == tag
        && name@ == "Tag "@ + ascii_chars(digits_of(tag as nat))
}

/// Whether an error says that the value of the field `tag` is invalid for
/// the reason `why`.
pub open spec fn spec_is_invalid(e: Error, tag: u32, why: Seq<char>) -> bool {
    e matches Error::Encode(EncodeError::InvalidFieldValue { tag: t, reason }) && t == tag
        && reason@ == why
}

/// The size that a value is taken to have once encoded.
pub open spec fn spec_value_size(value: FixFieldValue) -> nat {
    match value {
        FixFieldValue::String(s)
        | FixFieldValue::Decimal(s)
        | FixFieldValue::Character(s)
        | FixFieldValue::UtcTimestamp(s)
        | FixFieldValue::UtcDate(s)
        | FixFieldValue::UtcTime(s)
        | FixFieldValue::Raw(s) => vstd::utf8::encode_utf8(s@).len(),
        FixFieldValue::Integer(_) | FixFieldValue::UnsignedInteger(_) => INTEGER_ESTIMATE_SIZE as nat,
        FixFieldValue::Boolean(_) => BOOLEAN_SIZE as nat,
        FixFieldValue::Data(data) => data@.len(),
    }
}

/// The size that the first `n` fields are taken to have once encoded.
pub open spec fn spec_fields_size(fields: Seq<Field>, n: int) -> nat
    decreases n,
{
    if n <= 0 {
        0
    } else {
        spec_fields_size(fields, n - 1) + TAG_ENCODING_SIZE as nat + spec_value_size(
            fields[n - 1].value,
        ) + FIELD_TLV_OVERHEAD as nat
    }
}

/// The size that a message is taken to have once encoded: the bytes of
/// its three texts, a fixed number for the rest of its head, and for every
/// field the bytes of its value and a fixed number for its frame.
pub open spec fn spec_estimate(message: FixMessage) -> nat {
    vstd::utf8::encode_utf8(message.sender_comp_id@).len() + vstd::utf8::encode_utf8(
        message.target_comp_id@,
    ).len() + vstd::utf8::encode_utf8(message.msg_type@).len() + BASE_ASN1_OVERHEAD as nat
        + spec_fields_size(message.fields@, message.fields@.len() as int)
}

/// The size that a message is taken to have once encoded, as a number
/// that a machine holds: the largest number that there is where the size
/// would be more.
pub open spec fn spec_estimated_size(message: FixMessage) -> usize {
    if spec_estimate(message) <= usize::MAX {
        spec_estimate(message) as usize
    } else {
        usize::MAX
    }
}

/// The sum of two sizes, or the largest size where the sum is larger.
fn add_sizes(a: usize, b: usize) -> (r: usize)
    ensures
        r == if a + b <= usize::MAX {
            (a + b) as usize
        } else {
            usize::MAX
        },
{
    if b <= usize::MAX - a {
        a + b
    } else {
        usize::MAX
    }
}

/// An encoder of messages in ASN.1.
#[derive(Debug)]
pub struct Encoder {
    config: Config,
    schema: Schema,
    common_field_tags: TagList,
}

/// A message that is being put together for an encoder.
#[derive(Debug)]
pub struct EncoderHandle<'a> {
    encoder: &'a Encoder,
    message: FixMessage,
}

/// The rules that a message of a type is encoded with: those that were
/// set for the type, or those of the configuration.
pub open spec fn spec_rule_for(config: Config, msg_type: Seq<char>) -> EncodingRule {
    match spec_options(config.message_options@, msg_type) {
        Some(options) => match options.encoding_rule {
            Some(rule) => rule,
            None => config.encoding_rule,
        },
        None => config.encoding_rule,
    }
}

impl Encoder {
    /// The settings of the encoder.
    pub closed spec fn spec_config(&self) -> Config {
        self.config
    }

    /// The dictionary of the encoder.
    pub closed spec fn spec_dictionary(&self) -> Dictionary {
        self.schema.spec_dictionary()
    }

    /// The tags that the encoder looks for first.
    pub closed spec fn common_tags(&self) -> Seq<u32> {
        tags_of(self.common_field_tags)
    }

    /// An encoder with the settings `config` for the messages of
    /// `dictionary`.
    pub fn new(config: Config, dictionary: Dictionary) -> (r: Encoder)
        ensures
            r.spec_config() == config,
            r.spec_dictionary() == dictionary,
            r.common_tags() == spec_default_common_tags(),
    {
        let mut encoder = Encoder {
            config,
            schema: Schema::new(dictionary),
            common_field_tags: TagList::new(),
        };
        encoder.initialize_common_field_tags();
        encoder
    }

    /// The settings of the encoder.
    pub fn config(&self) -> (r: &Config)
        ensures
            *r == self.spec_config(),
    {
        &self.config
    }

    /// The settings of the encoder, to change them.
    pub fn config_mut(&mut self) -> (r: &mut Config)
        ensures
            *r == old(self).spec_config(),
            *final(r) == final(self).spec_config(),
            final(self).spec_dictionary() == old(self).spec_dictionary(),
            final(self).common_tags() == old(self).common_tags(),
    {
        &mut self.config
    }

    /// Sets the common tags to those of the fields that most messages
    /// carry.
    fn initialize_common_field_tags(&mut self)
        requires
            old(self).common_tags() == Seq::<u32>::empty(),
        ensures
            final(self).spec_config() == old(self).spec_config(),
            final(self).spec_dictionary() == old(self).spec_dictionary(),
            final(self).common_tags() == spec_default_common_tags(),
    {
        let default_common_tags: [u32; 22] = [
            55,  // Symbol
            54,  // Side
            38,  // OrderQty
            44,  // Price
            40,  // OrdType
            59,  // TimeInForce
            11,  // ClOrdID
            37,  // OrderID
            17,  // ExecID
            150,  // ExecType
            39,  // OrdStatus
            1,  // Account
            6,  // AvgPx
            14,  // CumQty
            32,  // LastQty
            31,  // LastPx
            151,  // LeavesQty
            60,  // TransactTime
            109,  // ClientID
            58,  // Text
            354,  // EncodedTextLen
            355,  // EncodedText
        ];
        assert(default_common_tags@ =~= spec_default_common_tags());
        self.common_field_tags.extend_from_slice(default_common_tags.as_slice());
        assert(tags_of(self.common_field_tags) =~= spec_default_common_tags());
    }

    /// Sets the common tags to the tags that are used most: the first 32
    /// of `field_usage_stats`, pairs of a tag and the number of its uses,
    /// in the order of falling numbers. Tags that are used equally often
    /// keep the order that they had.
    pub fn update_common_field_tags(&mut self, field_usage_stats: &[(u32, usize)])
        ensures
            final(self).spec_config() == old(self).spec_config(),
            final(self).spec_dictionary() == old(self).spec_dictionary(),
            final(self).common_tags().len() == if field_usage_stats@.len() < 32 {
                field_usage_stats@.len()
            } else {
                32
            },
            forall|i: int|
                0 <= i < final(self).common_tags().len() ==> final(self).common_tags()[i]
                    == (#[trigger] spec_by_falling_count(field_usage_stats@)[i]).0,
            spec_is_sorted_stably(spec_by_falling_count(field_usage_stats@), field_usage_stats@),
    {
        self.common_field_tags.clear();
        let mut sorted_stats: Vec<(u32, usize)> = vstd::slice::slice_to_vec(field_usage_stats);
        sort_by_falling_count(&mut sorted_stats);
        let mut i: usize = 0;
        while i < sorted_stats.len() && i < MAX_COMMON_TAGS
            invariant
                i <= sorted_stats.len(),
                i <= MAX_COMMON_TAGS,
                self.config == old(self).config,
                self.schema == old(self).schema,
                tags_of(self.common_field_tags).len() == i,
                forall|k: int|
                    0 <= k < i ==> #[trigger] tags_of(self.common_field_tags)[k]
                        == sorted_stats@[k].0,
            decreases sorted_stats.len() - i,
        {
            let tag: u32 = sorted_stats[i].0;
            self.common_field_tags.push(tag);
            i = i + 1;
        }
    }

    /// Starts a message of the type `msg_type` from `sender_comp_id` to
    /// `target_comp_id` with the sequence number `msg_seq_num`. It has no
    /// further fields yet.
    pub fn start_message<'a>(
        &'a self,
        msg_type: &str,
        sender_comp_id: &str,
        target_comp_id: &str,
        msg_seq_num: u64,
    ) -> (r: EncoderHandle<'a>)
        ensures
            r.encoder() == self,
            r.spec_message().msg_type@ == msg_type@,
            r.spec_message().sender_comp_id@ == sender_comp_id@,
            r.spec_message().target_comp_id@ == target_comp_id@,
            r.spec_message().msg_seq_num == msg_seq_num,
            r.spec_message().fields@ == Seq::<Field>::empty(),
    {
        let message = FixMessage {
            msg_type: String::from_str(msg_type),
            sender_comp_id: String::from_str(sender_comp_id),
            target_comp_id: String::from_str(target_comp_id),
            msg_seq_num,
            fields: Vec::new(),
        };
        EncoderHandle { encoder: self, message }
    }

    /// Puts the message together that stands for `msg` in ASN.1: type,
    /// sender, target and sequence number, which `msg` has to have, and
    /// the fields that `msg` has of those that the encoder looks for.
    pub fn prepare_message<'a, 'b, F: FieldMap<'b, u32>>(&'a self, msg: &F) -> (r: Result<
        EncoderHandle<'a>,
        Error,
    >)
        ensures
            match (
                spec_required_string(msg, MSG_TYPE_TAG),
                spec_required_string(msg, SENDER_COMP_ID_TAG),
                spec_required_string(msg, TARGET_COMP_ID_TAG),
                spec_required_u64(msg, MSG_SEQ_NUM_TAG),
            ) {
                (
                    RequiredView::Value(msg_type),
                    RequiredView::Value(sender),
                    RequiredView::Value(target),
                    RequiredView::Value(seq_num),
                ) => r matches Ok(handle) && handle.encoder() == self && handle.spec_message().msg_type@
                    == msg_type && handle.spec_message().sender_comp_id@ == sender
                    && handle.spec_message().target_comp_id@ == target && handle.spec_message().msg_seq_num
                    == seq_num && spec_fields_view(handle.spec_message().fields@) == spec_added_fields(
                    msg,
                    self.common_tags(),
                    self.spec_dictionary(),
                    msg_type,
                ),
                _ => r is Err,
            },
    {
        let msg_type: String = match Encoder::get_required_string_field(msg, MSG_TYPE_TAG) {
            Ok(s) => s,
            Err(e) => {
                return Err(e);
            },
        };
        let sender: String = match Encoder::get_required_string_field(msg, SENDER_COMP_ID_TAG) {
            Ok(s) => s,
            Err(e) => {
                return Err(e);
            },
        };
        let target: String = match Encoder::get_required_string_field(msg, TARGET_COMP_ID_TAG) {
            Ok(s) => s,
            Err(e) => {
                return Err(e);
            },
        };
        let seq_num: u64 = match Encoder::get_required_u64_field(msg, MSG_SEQ_NUM_TAG) {
            Ok(n) => n,
            Err(e) => {
                return Err(e);
            },
        };
        let mut handle: EncoderHandle = self.start_message(
            msg_type.as_str(),
            sender.as_str(),
            target.as_str(),
            seq_num,
        );
        assert(spec_fields_view(handle.message.fields@) =~= Seq::<
            (u32, FixFieldValueView),
        >::empty());
        self.add_message_fields(&mut handle, msg);
        Ok(handle)
    }

    /// The text of the field `tag`, which `msg` has to have.
    pub fn get_required_string_field<'b, F: FieldMap<'b, u32>>(msg: &F, tag: u32) -> (r: Result<
        String,
        Error,
    >)
        ensures
            match spec_required_string(msg, tag) {
                RequiredView::Value(text) => r matches Ok(s) && s@ == text,
                RequiredView::Missing => r matches Err(e) && spec_is_missing(e, tag),
                RequiredView::Invalid(why) => r matches Err(e) && spec_is_invalid(e, tag, why),
            },
    {
        let bytes: &[u8] = match msg.get_raw(tag) {
            Some(bytes) => bytes,
            None => {
                return Err(
                    Error::Encode(
                        EncodeError::RequiredFieldMissing {
                            tag,
                            name: String::from_str("Tag ").concat(
                                unsigned_to_string(tag as u64).as_str(),
                            ),
                        },
                    ),
                );
            },
        };
        match string_from_utf8(bytes) {
            Some(s) => Ok(s),
            None => Err(
                Error::Encode(
                    EncodeError::InvalidFieldValue {
                        tag,
                        reason: String::from_str("Invalid UTF-8 in field value"),
                    },
                ),
            ),
        }
    }

    /// The number of the field `tag`, which `msg` has to have.
    pub fn get_required_u64_field<'b, F: FieldMap<'b, u32>>(msg: &F, tag: u32) -> (r: Result<
        u64,
        Error,
    >)
        ensures
            match spec_required_u64(msg, tag) {
                RequiredView::Value(n) => r matches Ok(got) && got == n,
                RequiredView::Missing => r matches Err(e) && spec_is_missing(e, tag),
                RequiredView::Invalid(why) => r matches Err(e) && spec_is_invalid(e, tag, why),
            },
    {
        let bytes: &[u8] = match msg.get_raw(tag) {
            Some(bytes) => bytes,
            None => {
                return Err(
                    Error::Encode(
                        EncodeError::RequiredFieldMissing {
                            tag,
                            name: String::from_str("Tag ").concat(
                                unsigned_to_string(tag as u64).as_str(),
                            ),
                        },
                    ),
                );
            },
        };
        if string_from_utf8(bytes).is_none() {
            return Err(
                Error::Encode(
                    EncodeError::InvalidFieldValue {
                        tag,
                        reason: String::from_str("Invalid UTF-8 in field value"),
                    },
                ),
            );
        }
        match parse_unsigned(bytes, u64::MAX) {
            Some(n) => Ok(n),
            None => Err(
                Error::Encode(
                    EncodeError::InvalidFieldValue {
                        tag,
                        reason: String::from_str("Invalid u64 value"),
                    },
                ),
            ),
        }
    }

    /// One pass over `tags`: adds to `handle` the fields of `msg` with
    /// these tags that are no standard header fields and were not dealt
    /// with.
    fn add_fields_of<'b, F: FieldMap<'b, u32>>(
        handle: &mut EncoderHandle,
        msg: &F,
        tags: &[u32],
        mark: bool,
        processed_tags: &mut TagSet,
    )
        ensures
            final(handle).encoder == old(handle).encoder,
            final(handle).message.msg_type == old(handle).message.msg_type,
            final(handle).message.sender_comp_id == old(handle).message.sender_comp_id,
            final(handle).message.target_comp_id == old(handle).message.target_comp_id,
            final(handle).message.msg_seq_num == old(handle).message.msg_seq_num,
            (PassView {
                fields: spec_fields_view(final(handle).message.fields@),
                processed: final(processed_tags)@,
            }) == spec_pass(
                msg,
                tags@,
                tags@.len() as int,
                mark,
                PassView {
                    fields: spec_fields_view(old(handle).message.fields@),
                    processed: old(processed_tags)@,
                },
            ),
    {
        let ghost start = PassView {
            fields: spec_fields_view(handle.message.fields@),
            processed: processed_tags@,
        };
        let mut i: usize = 0;
        while i < tags.len()
            invariant
                i <= tags.len(),
                handle.encoder == old(handle).encoder,
                handle.message.msg_type == old(handle).message.msg_type,
                handle.message.sender_comp_id == old(handle).message.sender_comp_id,
                handle.message.target_comp_id == old(handle).message.target_comp_id,
                handle.message.msg_seq_num == old(handle).message.msg_seq_num,
                (PassView {
                    fields: spec_fields_view(handle.message.fields@),
                    processed: processed_tags@,
                }) == spec_pass(msg, tags@, i as int, mark, start),
            decreases tags.len() - i,
        {
            let tag: u32 = tags[i];
            let ghost before = spec_fields_view(handle.message.fields@);
            if !Encoder::is_standard_header_field(tag) && !tags_contain(processed_tags, tag) {
                match msg.get_raw(tag) {
                    Some(raw_data) => {
                        let value: String = string_from_utf8_lossy(raw_data);
                        handle.message.fields.push(
                            Field { tag, value: FixFieldValue::String(value) },
                        );
                        if mark {
                            tags_insert(processed_tags, tag);
                        }
                        assert(spec_fields_view(handle.message.fields@) =~= before.push(
                            (tag, FixFieldValueView::String(lossy_text(raw_data@))),
                        ));
                    },
                    None => {},
                }
            }
            i = i + 1;
        }
    }

    /// Adds to `handle` the fields of `msg` that the encoder looks for.
    fn add_message_fields<'b, F: FieldMap<'b, u32>>(&self, handle: &mut EncoderHandle, msg: &F)
        requires
            spec_fields_view(old(handle).message.fields@) == Seq::<
                (u32, FixFieldValueView),
            >::empty(),
        ensures
            final(handle).encoder == old(handle).encoder,
            final(handle).message.msg_type == old(handle).message.msg_type,
            final(handle).message.sender_comp_id == old(handle).message.sender_comp_id,
            final(handle).message.target_comp_id == old(handle).message.target_comp_id,
            final(handle).message.msg_seq_num == old(handle).message.msg_seq_num,
            spec_fields_view(final(handle).message.fields@) == spec_added_fields(
                msg,
                self.common_tags(),
                self.spec_dictionary(),
                old(handle).message.msg_type@,
            ),
    {
        let dictionary: &Dictionary = self.schema.dictionary();
        // The tags that were dealt with.
        let mut processed_tags: TagSet = FxHashSet::default();
        // First the common fields.
        Encoder::add_fields_of(
            handle,
            msg,
            self.common_field_tags.as_slice(),
            true,
            &mut processed_tags,
        );
        // Then the fields of the layout of the type of message.
        match dictionary.message_by_msgtype(handle.message.msg_type.as_str()) {
            Some(msg_type_def) => {
                let layout: &Vec<LayoutItem> = msg_type_def.layout();
                let mut tags: Vec<u32> = Vec::new();
                let mut i: usize = 0;
                while i < layout.len()
                    invariant
                        i <= layout.len(),
                        tags@ =~= spec_layout_tags(layout@).take(i as int),
                    decreases layout.len() - i,
                {
                    tags.push(layout[i].tag.get());
                    i = i + 1;
                }
                assert(tags@ =~= spec_layout_tags(layout@));
                Encoder::add_fields_of(handle, msg, tags.as_slice(), true, &mut processed_tags);
            },
            None => {},
        }
        // Last every field of the dictionary, so that none is missed.
        let fields: &Vec<FieldDefinition> = dictionary.fields();
        let mut tags: Vec<u32> = Vec::new();
        let mut i: usize = 0;
        while i < fields.len()
            invariant
                i <= fields.len(),
                tags@ =~= spec_field_tags(fields@).take(i as int),
            decreases fields.len() - i,
        {
            tags.push(fields[i].tag);
            i = i + 1;
        }
        assert(tags@ =~= spec_field_tags(fields@));
        Encoder::add_fields_of(handle, msg, tags.as_slice(), false, &mut processed_tags);
    }

    /// Tests whether a tag belongs to the part of the header that every
    /// message carries apart from its fields.
    pub fn is_standard_header_field(tag: u32) -> (r: bool)
        ensures
            r == spec_is_standard_header_field(tag),
    {
        tag == BEGIN_STRING_TAG || tag == BODY_LENGTH_TAG || tag == CHECK_SUM_TAG || tag
            == MSG_SEQ_NUM_TAG || tag == MSG_TYPE_TAG || tag == SENDER_COMP_ID_TAG || tag
            == SENDING_TIME_TAG || tag == TARGET_COMP_ID_TAG
    }

    /// What becomes of the answer of the ASN.1 library to a message: the
    /// bytes, or its complaint as an internal error.
    pub fn finish(encoded: Result<Vec<u8>, String>) -> (r: Result<Vec<u8>, Error>)
        ensures
            match encoded {
                Ok(bytes) => r matches Ok(got) && got@ == bytes@,
                Err(text) => r matches Err(Error::Encode(EncodeError::Internal(got))) && got@
                    == text@,
            },
    {
        match encoded {
            Ok(bytes) => Ok(bytes),
            Err(text) => Err(Error::Encode(EncodeError::Internal(text))),
        }
    }
}

impl<'a> EncoderHandle<'a> {
    /// The encoder that the message is for.
    pub closed spec fn encoder(&self) -> &'a Encoder {
        self.encoder
    }

    /// The message as it stands.
    pub closed spec fn spec_message(&self) -> FixMessage {
        self.message
    }

    /// The message as it stands.
    pub fn message(&self) -> (r: &FixMessage)
        ensures
            *r == self.spec_message(),
    {
        &self.message
    }

    /// Adds a field with `tag` and the typed value of `value` behind the
    /// fields that are there.
    pub fn add_field<T: ToFixFieldValue>(&mut self, tag: u32, value: &T) -> (r: &mut Self)
        ensures
            r.encoder() == old(self).encoder(),
            r.spec_message().msg_type == old(self).spec_message().msg_type,
            r.spec_message().sender_comp_id == old(self).spec_message().sender_comp_id,
            r.spec_message().target_comp_id == old(self).spec_message().target_comp_id,
            r.spec_message().msg_seq_num == old(self).spec_message().msg_seq_num,
            spec_fields_view(r.spec_message().fields@) == spec_fields_view(
                old(self).spec_message().fields@,
            ).push((tag, value.spec_fix_field_value())),
            *final(self) == *final(r),
    {
        let ghost before = spec_fields_view(self.message.fields@);
        self.message.fields.push(Field { tag, value: value.to_fix_field_value() });
        assert(spec_fields_view(self.message.fields@) =~= before.push(
            (tag, value.spec_fix_field_value()),
        ));
        self
    }

    /// Adds a field with `tag` and the text `value`.
    pub fn add_string(&mut self, tag: u32, value: String) -> (r: &mut Self)
        ensures
            r.encoder() == old(self).encoder(),
            r.spec_message().msg_type == old(self).spec_message().msg_type,
            r.spec_message().sender_comp_id == old(self).spec_message().sender_comp_id,
            r.spec_message().target_comp_id == old(self).spec_message().target_comp_id,
            r.spec_message().msg_seq_num == old(self).spec_message().msg_seq_num,
            spec_fields_view(r.spec_message().fields@) == spec_fields_view(
                old(self).spec_message().fields@,
            ).push((tag, FixFieldValueView::String(value@))),
            *final(self) == *final(r),
    {
        self.add_field(tag, &value)
    }

    /// Adds a field with `tag` and the signed integer `value`.
    pub fn add_int(&mut self, tag: u32, value: i64) -> (r: &mut Self)
        ensures
            r.encoder() == old(self).encoder(),
            r.spec_message().msg_type == old(self).spec_message().msg_type,
            r.spec_message().sender_comp_id == old(self).spec_message().sender_comp_id,
            r.spec_message().target_comp_id == old(self).spec_message().target_comp_id,
            r.spec_message().msg_seq_num == old(self).spec_message().msg_seq_num,
            spec_fields_view(r.spec_message().fields@) == spec_fields_view(
                old(self).spec_message().fields@,
            ).push((tag, FixFieldValueView::Integer(value))),
            *final(self) == *final(r),
    {
        self.add_field(tag, &value)
    }

    /// Adds a field with `tag` and the unsigned integer `value`.
    pub fn add_uint(&mut self, tag: u32, value: u64) -> (r: &mut Self)
        ensures
            r.encoder() == old(self).encoder(),
            r.spec_message().msg_type == old(self).spec_message().msg_type,
            r.spec_message().sender_comp_id == old(self).spec_message().sender_comp_id,
            r.spec_message().target_comp_id == old(self).spec_message().target_comp_id,
            r.spec_message().msg_seq_num == old(self).spec_message().msg_seq_num,
            spec_fields_view(r.spec_message().fields@) == spec_fields_view(
                old(self).spec_message().fields@,
            ).push((tag, FixFieldValueView::UnsignedInteger(value))),
            *final(self) == *final(r),
    {
        self.add_field(tag, &value)
    }

    /// Adds a field with `tag` and the boolean `value`.
    pub fn add_bool(&mut self, tag: u32, value: bool) -> (r: &mut Self)
        ensures
            r.encoder() == old(self).encoder(),
            r.spec_message().msg_type == old(self).spec_message().msg_type,
            r.spec_message().sender_comp_id == old(self).spec_message().sender_comp_id,
            r.spec_message().target_comp_id == old(self).spec_message().target_comp_id,
            r.spec_message().msg_seq_num == old(self).spec_message().msg_seq_num,
            spec_fields_view(r.spec_message().fields@) == spec_fields_view(
                old(self).spec_message().fields@,
            ).push((tag, FixFieldValueView::Boolean(value))),
            *final(self) == *final(r),
    {
        self.add_field(tag, &value)
    }

    /// Adds a field with `tag` whose value is what `value` writes with
    /// `settings`, as text.
    pub fn set_with<'b, V: FieldType<'b>>(
        &mut self,
        field: u32,
        value: V,
        settings: V::SerializeSettings,
    )
        ensures
            final(self).encoder() == old(self).encoder(),
            final(self).spec_message().msg_type == old(self).spec_message().msg_type,
            final(self).spec_message().sender_comp_id == old(self).spec_message().sender_comp_id,
            final(self).spec_message().target_comp_id == old(self).spec_message().target_comp_id,
            final(self).spec_message().msg_seq_num == old(self).spec_message().msg_seq_num,
            spec_fields_view(final(self).spec_message().fields@) == spec_fields_view(
                old(self).spec_message().fields@,
            ).push((field, FixFieldValueView::String(lossy_text(value.spec_serialize(settings))))),
    {
        let mut temp_buffer: Vec<u8> = Vec::new();
        let _ = value.serialize_with(&mut temp_buffer, settings);
        assert(temp_buffer@ =~= value.spec_serialize(settings));
        let value_str: String = string_from_utf8_lossy(temp_buffer.as_slice());
        let _ = self.add_field(field, &value_str);
    }

    /// The size that the message is taken to have once encoded; the
    /// largest number that there is where it would be more.
    pub fn estimate_size(&self) -> (r: usize)
        ensures
            r == spec_estimated_size(self.spec_message()),
    {
        let mut fields_size: usize = 0;
        let mut i: usize = 0;
        while i < self.message.fields.len()
            invariant
                i <= self.message.fields.len(),
                fields_size == if spec_fields_size(self.message.fields@, i as int) <= usize::MAX {
                    spec_fields_size(self.message.fields@, i as int) as usize
                } else {
                    usize::MAX
                },
            decreases self.message.fields.len() - i,
        {
            let value_size: usize = match &self.message.fields[i].value {
                FixFieldValue::String(s)
                | FixFieldValue::Decimal(s)
                | FixFieldValue::Character(s)
                | FixFieldValue::UtcTimestamp(s)
                | FixFieldValue::UtcDate(s)
                | FixFieldValue::UtcTime(s)
                | FixFieldValue::Raw(s) => s.as_str().as_bytes().len(),
                FixFieldValue::Integer(_) | FixFieldValue::UnsignedInteger(_) => {
                    INTEGER_ESTIMATE_SIZE
                },
                FixFieldValue::Boolean(_) => BOOLEAN_SIZE,
                FixFieldValue::Data(data) => data.len(),
            };
            fields_size = add_sizes(
                fields_size,
                add_sizes(add_sizes(TAG_ENCODING_SIZE, value_size), FIELD_TLV_OVERHEAD),
            );
            i = i + 1;
        }
        let base_size: usize = add_sizes(
            add_sizes(
                add_sizes(
                    self.message.sender_comp_id.as_str().as_bytes().len(),
                    self.message.target_comp_id.as_str().as_bytes().len(),
                ),
                self.message.msg_type.as_str().as_bytes().len(),
            ),
            BASE_ASN1_OVERHEAD,
        );
        add_sizes(base_size, fields_size)
    }

    /// Makes the message ready for encoding: it must not be taken to be
    /// larger than the settings allow. What comes out is the message and
    /// the rules to encode it with: those that were set for its type, or
    /// those of the configuration.
    pub fn prepare(self) -> (r: Result<(FixMessage, EncodingRule), Error>)
        ensures
            spec_estimated_size(self.spec_message())
                > self.encoder().spec_config().max_message_size ==> (r matches Err(
                Error::Encode(EncodeError::MessageTooLarge { size, max_size }),
            ) && size == spec_estimated_size(self.spec_message()) && max_size
                == self.encoder().spec_config().max_message_size),
            spec_estimated_size(self.spec_message())
                <= self.encoder().spec_config().max_message_size ==> (r matches Ok(
                (message, rule),
            ) && message == self.spec_message() && rule == spec_rule_for(
                self.encoder().spec_config(),
                self.spec_message().msg_type@,
            )),
    {
        let estimated_size: usize = self.estimate_size();
        if estimated_size > self.encoder.config.max_message_size {
            return Err(
                Error::Encode(
                    EncodeError::MessageTooLarge {
                        size: estimated_size,
                        max_size: self.encoder.config.max_message_size,
                    },
                ),
            );
        }
        // Rules that were set for the type of message come first.
        let encoding_rule: EncodingRule = match self.encoder.config.get_message_options(
            self.message.msg_type.as_str(),
        ) {
            Some(options) => match options.encoding_rule {
                Some(rule) => rule,
                None => self.encoder.config.encoding_rule,
            },
            None => self.encoder.config.encoding_rule,
        };
        Ok((self.message, encoding_rule))
    }
}

/// An encoder that collects what it encodes in a buffer of its own.
#[derive(Debug)]
pub struct EncoderStreaming {
    encoder: Encoder,
    output_buffer: Vec<u8>,
}

impl EncoderStreaming {
    /// The bytes that were encoded and not taken out.
    pub closed spec fn spec_output(&self) -> Seq<u8> {
        self.output_buffer@
    }

    /// The settings of the encoder.
    pub closed spec fn spec_config(&self) -> Config {
        self.encoder.spec_config()
    }

    /// A streaming encoder with the settings `config` for the messages of
    /// `dictionary`. Its buffer is empty.
    pub fn new(config: Config, dictionary: Dictionary) -> (r: EncoderStreaming)
        ensures
            r.spec_output() == Seq::<u8>::empty(),
            r.spec_config() == config,
    {
        let buffer_size: usize = config.stream_buffer_size;
        EncoderStreaming {
            encoder: Encoder::new(config, dictionary),
            output_buffer: Vec::with_capacity(buffer_size),
        }
    }

    /// The encoder that puts the messages together.
    pub fn encoder(&self) -> (r: &Encoder)
        ensures
            r.spec_config() == self.spec_config(),
    {
        &self.encoder
    }

    /// Appends the bytes of a message that was encoded.
    pub fn push_encoded(&mut self, encoded: &[u8])
        ensures
            final(self).spec_output() == old(self).spec_output() + encoded@,
            final(self).spec_config() == old(self).spec_config(),
    {
        self.output_buffer.extend_from_slice(encoded);
    }

    /// Takes out what was encoded: the buffer is empty afterwards.
    pub fn take_output(&mut self) -> (r: Vec<u8>)
        ensures
            r@ == old(self).spec_output(),
            final(self).spec_output() == Seq::<u8>::empty(),
            final(self).spec_config() == old(self).spec_config(),
    {
        let mut out: Vec<u8> = Vec::new();
        out.append(&mut self.output_buffer);
        out
    }

    /// What was encoded and not taken out.
    pub fn output(&self) -> (r: &[u8])
        ensures
            r@ == self.spec_output(),
    {
        self.output_buffer.as_slice()
    }

    /// Forgets what was encoded.
    pub fn clear(&mut self)
        ensures
            final(self).spec_output() == Seq::<u8>::empty(),
            final(self).spec_config() == old(self).spec_config(),
    {
        self.output_buffer.clear();
    }
}

} // verus!
