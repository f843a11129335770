//! A message that is held field by field: the fields that every message
//! has, and a table of all fields by tag that keeps the order in which
//! they were set.
//!
//! The type of a message is held as its text, the value of `MsgType(35)`.
//! Which types and which tags there are is asked of a dictionary.
use super::field_types::{lossy_text, string_from_utf8_lossy, Asn1FieldError, Asn1String, Asn1UInteger};
use super::time::{spec_is_date, spec_is_time, spec_is_timestamp, TimeProbes};
use super::types::{spec_from_string, spec_text, spec_wire, Field, FixFieldValue, FixMessage};
use crate::dict::{spec_find_field, spec_find_message, Dictionary, FieldDefinition};
use crate::tagvalue::digits::{digits_of, render_decimal, spec_parse_unsigned};
use crate::text::{ascii_chars, unsigned_to_string};
use crate::traits::{FieldType, FieldValueError, InvalidInt, RepeatingGroup};
use std::collections::HashMap;
use vstd::prelude::*;
use vstd::slice::slice_to_vec;
use vstd::string::StringExecFns;
use vstd::std_specs::hash::*;
use vstd::utf8::encode_utf8;

verus! {

broadcast use vstd::std_specs::hash::group_hash_axioms;

/// The tag of `MsgType`.
pub const MSG_TYPE_TAG: u32 = 35;

/// The tag of `SenderCompID`.
pub const SENDER_COMP_ID_TAG: u32 = 49;

/// The tag of `TargetCompID`.
pub const TARGET_COMP_ID_TAG: u32 = 56;

/// The tag of `MsgSeqNum`.
pub const MSG_SEQ_NUM_TAG: u32 = 34;

/// The tag of `SendingTime`.
pub const SENDING_TIME_TAG: u32 = 52;

/// The table of fields of a message, as plain values.
pub struct FieldsModel {
    /// The value of every field, by tag.
    pub values: Map<u32, Seq<u8>>,
    /// The tags in the order in which they were first set.
    pub order: Seq<u32>,
}

impl FieldsModel {
    /// A table without fields.
    pub open spec fn empty() -> FieldsModel {
        FieldsModel { values: Map::empty(), order: Seq::empty() }
    }

    /// The table after the field with `tag` was set to `value`: a tag that
    /// is new comes last, a tag that is there keeps its place.
    pub open spec fn set(self, tag: u32, value: Seq<u8>) -> FieldsModel {
        FieldsModel {
            values: self.values.insert(tag, value),
            order: if self.values.contains_key(tag) {
                self.order
            } else {
                self.order.push(tag)
            },
        }
    }

    /// Every tag that has a value stands in the order, once, and no other
    /// tag does.
    pub open spec fn wf(self) -> bool {
        &&& self.order.no_duplicates()
        &&& forall|tag: u32| self.values.contains_key(tag) <==> self.order.contains(tag)
    }
}

/// Setting a field keeps a table in order.
pub proof fn lemma_set_keeps_order(table: FieldsModel, tag: u32, value: Seq<u8>)
    requires
        table.wf(),
    ensures
        table.set(tag, value).wf(),
{
    let next = table.set(tag, value);
    if table.values.contains_key(tag) {
        assert forall|t: u32| next.values.contains_key(t) <==> next.order.contains(t) by {}
    } else {
        assert(!table.order.contains(tag));
        assert forall|i: int, j: int|
            0 <= i < next.order.len() && 0 <= j < next.order.len() && i != j implies next.order[i]
            != next.order[j] by {
            if i < table.order.len() && j < table.order.len() {
            } else if i < table.order.len() {
                assert(table.order.contains(table.order[i]));
            } else if j < table.order.len() {
                assert(table.order.contains(table.order[j]));
            }
        }
        assert forall|t: u32| next.values.contains_key(t) <==> next.order.contains(t) by {
            if next.order.contains(t) {
                let i = choose|i: int| 0 <= i < next.order.len() && next.order[i] == t;
                if i < table.order.len() {
                    assert(table.order.contains(t));
                }
            }
            if table.order.contains(t) {
                let i = choose|i: int| 0 <= i < table.order.len() && table.order[i] == t;
                assert(next.order[i] == t);
            }
            if t == tag {
                assert(next.order[table.order.len() as int] == tag);
            }
        }
    }
}

/// The values of a table of fields, as plain bytes.
pub open spec fn spec_field_values(table: Map<u32, Vec<u8>>) -> Map<u32, Seq<u8>> {
    Map::new(|tag: u32| table.contains_key(tag), |tag: u32| table[tag]@)
}

/// The table of the fields that every message has.
pub open spec fn spec_header_fields(
    msg_type: Seq<char>,
    sender_comp_id: Seq<char>,
    target_comp_id: Seq<char>,
    msg_seq_num: u64,
) -> FieldsModel {
    FieldsModel::empty().set(MSG_TYPE_TAG, encode_utf8(msg_type)).set(
        SENDER_COMP_ID_TAG,
        encode_utf8(sender_comp_id),
    ).set(TARGET_COMP_ID_TAG, encode_utf8(target_comp_id)).set(
        MSG_SEQ_NUM_TAG,
        digits_of(msg_seq_num as nat),
    )
}

/// A message, as plain values.
pub struct MessageModel {
    /// The type of the message.
    pub msg_type: Seq<char>,
    /// `SenderCompID(49)`.
    pub sender_comp_id: Seq<char>,
    /// `TargetCompID(56)`.
    pub target_comp_id: Seq<char>,
    /// `MsgSeqNum(34)`.
    pub msg_seq_num: u64,
    /// `SendingTime(52)`, where the message has one.
    pub sending_time: Option<Seq<char>>,
    /// The table of all fields.
    pub table: FieldsModel,
}

impl MessageModel {
    /// The message after the field with `tag` was set to `value`.
    pub open spec fn set(self, tag: u32, value: Seq<u8>) -> MessageModel {
        MessageModel { table: self.table.set(tag, value), ..self }
    }

    /// The message with another sending time.
    pub open spec fn sent_at(self, time: Seq<char>) -> MessageModel {
        MessageModel { sending_time: Some(time), ..self }
    }

    /// A message with the four fields that every message has.
    pub open spec fn start(
        msg_type: Seq<char>,
        sender_comp_id: Seq<char>,
        target_comp_id: Seq<char>,
        msg_seq_num: u64,
    ) -> MessageModel {
        MessageModel {
            msg_type,
            sender_comp_id,
            target_comp_id,
            msg_seq_num,
            sending_time: None,
            table: spec_header_fields(msg_type, sender_comp_id, target_comp_id, msg_seq_num),
        }
    }
}

/// Whether the fields with `tag` are among those that every message has
/// or the sending time.
pub open spec fn spec_is_head_tag(tag: u32) -> bool {
    tag == MSG_TYPE_TAG || tag == SENDER_COMP_ID_TAG || tag == TARGET_COMP_ID_TAG || tag
        == MSG_SEQ_NUM_TAG || tag == SENDING_TIME_TAG
}

/// Whether the fields with `tag` are among those that every message has
/// or the sending time.
pub fn is_head_tag(tag: u32) -> (r: bool)
    ensures
        r == spec_is_head_tag(tag),
{
    tag == MSG_TYPE_TAG || tag == SENDER_COMP_ID_TAG || tag == TARGET_COMP_ID_TAG || tag
        == MSG_SEQ_NUM_TAG || tag == SENDING_TIME_TAG
}

/// The place of the first field with `tag` among `fields` from `from` on.
pub open spec fn spec_first_with_tag(fields: Seq<Field>, tag: u32, from: int) -> Option<int>
    decreases fields.len() - from,
{
    if from < 0 || from >= fields.len() {
        None
    } else if fields[from].tag == tag {
        Some(from)
    } else {
        spec_first_with_tag(fields, tag, from + 1)
    }
}

/// The message after the fields from place `n` on were set, one after the
/// other, each to the bytes of its value. The sending time is passed
/// over.
pub open spec fn spec_with_fields(m: MessageModel, fields: Seq<Field>, n: int) -> MessageModel
    decreases fields.len() - n,
{
    if n < 0 || n >= fields.len() {
        m
    } else if fields[n].tag == SENDING_TIME_TAG {
        spec_with_fields(m, fields, n + 1)
    } else {
        spec_with_fields(m.set(fields[n].tag, spec_wire(fields[n].value@)), fields, n + 1)
    }
}

/// The message that stands for a message with typed values. It has the
/// four fields of every message; then the sending time, where a field has
/// that tag: the text of the first of them; then the other fields in
/// their order.
pub open spec fn spec_from_fix_message(msg: FixMessage) -> MessageModel {
    let start = MessageModel::start(
        msg.msg_type@,
        msg.sender_comp_id@,
        msg.target_comp_id@,
        msg.msg_seq_num,
    );
    let timed = match spec_first_with_tag(msg.fields@, SENDING_TIME_TAG, 0) {
        Some(i) => start.sent_at(spec_text(msg.fields@[i].value@)).set(
            SENDING_TIME_TAG,
            encode_utf8(spec_text(msg.fields@[i].value@)),
        ),
        None => start,
    };
    spec_with_fields(timed, msg.fields@, 0)
}

/// The tags among the first `n` of a table that go into the list of
/// further fields of a message: those that are not in the head of the
/// message, and have a value.
pub open spec fn spec_kept(table: FieldsModel, n: int) -> Seq<u32>
    decreases n,
{
    if n <= 0 || n > table.order.len() {
        Seq::empty()
    } else {
        let tag = table.order[n - 1];
        if !spec_is_head_tag(tag) && table.values.contains_key(tag) {
            spec_kept(table, n - 1).push(tag)
        } else {
            spec_kept(table, n - 1)
        }
    }
}

/// The typed value that is made of bytes of which nothing but the bytes
/// is known.
pub open spec fn spec_typed(value: Seq<u8>) -> super::types::FixFieldValueView {
    let text = lossy_text(value);
    spec_from_string(
        text,
        TimeProbes {
            timestamp: spec_is_timestamp(text),
            date: spec_is_date(text),
            time: spec_is_time(text),
        },
    )
}

/// Whether `field` is the field with `tag` of a table, with the typed
/// value that its bytes make.
pub open spec fn spec_is_typed_of(field: Field, table: FieldsModel, tag: u32) -> bool {
    &&& field.tag == tag
    &&& table.values.contains_key(tag)
    &&& field.value@ == spec_typed(table.values[tag])
}

/// What reading the field with tag `field` as a `V` gives: `Missing`
/// where there is no such field, the value where its bytes can be read,
/// and the error of the type where they cannot. `lossy` tells the reading
/// that forgives slips from the one that does not.
pub open spec fn spec_reads<'a, V: FieldType<'a>>(
    values: Map<u32, Seq<u8>>,
    field: u32,
    lossy: bool,
    r: Result<V, FieldValueError<V::Error>>,
) -> bool {
    if values.contains_key(field) {
        let value = values[field];
        if lossy {
            &&& r is Ok <==> V::readable_lossy(value)
            &&& r matches Ok(v) ==> V::reads_lossy_as(value, v)
            &&& r matches Err(e) ==> e == FieldValueError::Invalid(V::read_error(value, true))
        } else {
            &&& r is Ok <==> V::readable(value)
            &&& r matches Ok(v) ==> V::reads_as(value, v)
            &&& r matches Err(e) ==> e == FieldValueError::Invalid(V::read_error(value, false))
        }
    } else {
        r matches Err(FieldValueError::Missing)
    }
}

/// What reading the field with tag `field` as a `V` gives where the field
/// may be missing: `None` where there is no such field.
pub open spec fn spec_reads_opt<'a, V: FieldType<'a>>(
    values: Map<u32, Seq<u8>>,
    field: u32,
    lossy: bool,
    r: Result<Option<V>, V::Error>,
) -> bool {
    if values.contains_key(field) {
        let value = values[field];
        if lossy {
            &&& r is Ok <==> V::readable_lossy(value)
            &&& r matches Ok(v) ==> v matches Some(x) && V::reads_lossy_as(value, x)
            &&& r matches Err(e) ==> e == V::read_error(value, true)
        } else {
            &&& r is Ok <==> V::readable(value)
            &&& r matches Ok(v) ==> v matches Some(x) && V::reads_as(value, x)
            &&& r matches Err(e) ==> e == V::read_error(value, false)
        }
    } else {
        r matches Ok(None)
    }
}

/// Entry `i` of a group: a message that stands in for the entry, with a
/// sender and a target that are named after the place of the entry.
pub open spec fn spec_group_entry(i: int) -> MessageModel {
    MessageModel::start(
        "8"@,
        "GROUP_SENDER_"@ + ascii_chars(digits_of(i as nat)),
        "GROUP_TARGET_"@ + ascii_chars(digits_of(i as nat)),
        (i + 1) as u64,
    )
}

/// The messages of a list, as plain values.
pub open spec fn spec_models(entries: Seq<Message>) -> Seq<MessageModel> {
    Seq::new(entries.len(), |i: int| entries[i]@)
}

/// A field whose value is a text.
#[derive(Debug, Clone, PartialEq)]
pub struct Asn1Field {
    /// The tag of the field.
    pub tag: u32,
    /// The value of the field.
    pub value: String,
}

/// A message whose values are texts: its head, and a list of further
/// fields.
#[derive(Debug, Clone, PartialEq)]
pub struct Asn1FixMessage {
    /// The type of the message: the value of `MsgType(35)`.
    pub msg_type: String,
    /// `SenderCompID(49)`.
    pub sender_comp_id: String,
    /// `TargetCompID(56)`.
    pub target_comp_id: String,
    /// `MsgSeqNum(34)`.
    pub msg_seq_num: u64,
    /// `SendingTime(52)`, where the message has one.
    pub sending_time: Option<String>,
    /// The other fields, in their order.
    pub fields: Vec<Asn1Field>,
}

/// The message after the fields from place `n` on were set, one after the
/// other, each to the bytes of its text.
pub open spec fn spec_with_texts(m: MessageModel, fields: Seq<Asn1Field>, n: int) -> MessageModel
    decreases fields.len() - n,
{
    if n < 0 || n >= fields.len() {
        m
    } else {
        spec_with_texts(m.set(fields[n].tag, encode_utf8(fields[n].value@)), fields, n + 1)
    }
}

/// The message that stands for a message of texts.
pub open spec fn spec_from_asn1_message(msg: Asn1FixMessage) -> MessageModel {
    let start = MessageModel::start(
        msg.msg_type@,
        msg.sender_comp_id@,
        msg.target_comp_id@,
        msg.msg_seq_num,
    );
    let timed = match msg.sending_time {
        Some(time) => start.sent_at(time@).set(SENDING_TIME_TAG, encode_utf8(time@)),
        None => start,
    };
    spec_with_texts(timed, msg.fields@, 0)
}

/// Whether `field` is the field with `tag` of a table, its bytes as text.
pub open spec fn spec_is_text_of(field: Asn1Field, table: FieldsModel, tag: u32) -> bool {
    &&& field.tag == tag
    &&& table.values.contains_key(tag)
    &&& field.value@ == lossy_text(table.values[tag])
}

/// The tags among the first `n` of a table that go into the list of
/// further fields of a message of texts: those that are not in the head
/// of the message, are known among `known`, and have a value.
pub open spec fn spec_kept_known(table: FieldsModel, known: Seq<FieldDefinition>, n: int) -> Seq<
    u32,
>
    decreases n,
{
    if n <= 0 || n > table.order.len() {
        Seq::empty()
    } else {
        let tag = table.order[n - 1];
        if !spec_is_head_tag(tag) && spec_find_field(known, tag) is Some
            && table.values.contains_key(tag) {
            spec_kept_known(table, known, n - 1).push(tag)
        } else {
            spec_kept_known(table, known, n - 1)
        }
    }
}

/// A message, field by field.
#[derive(Debug, PartialEq)]
pub struct Message {
    /// The type of the message: the value of `MsgType(35)`.
    pub msg_type: String,
    /// `SenderCompID(49)`.
    pub sender_comp_id: String,
    /// `TargetCompID(56)`.
    pub target_comp_id: String,
    /// `MsgSeqNum(34)`.
    pub msg_seq_num: u64,
    /// `SendingTime(52)`, where the message has one.
    pub sending_time: Option<String>,
    fields: HashMap<u32, Vec<u8>>,
    field_order: Vec<u32>,
}

impl View for Message {
    type V = MessageModel;

    closed spec fn view(&self) -> MessageModel {
        MessageModel {
            msg_type: self.msg_type@,
            sender_comp_id: self.sender_comp_id@,
            target_comp_id: self.target_comp_id@,
            msg_seq_num: self.msg_seq_num,
            sending_time: match self.sending_time {
                Some(time) => Some(time@),
                None => None,
            },
            table: FieldsModel {
                values: spec_field_values(self.fields@),
                order: self.field_order@,
            },
        }
    }
}

impl Message {
    /// A message with the four fields that every message has.
    pub fn new(
        msg_type: String,
        sender_comp_id: String,
        target_comp_id: String,
        msg_seq_num: u64,
    ) -> (r: Message)
        ensures
            r@ == MessageModel::start(msg_type@, sender_comp_id@, target_comp_id@, msg_seq_num),
            r@.table.wf(),
    {
        let type_bytes: Vec<u8> = slice_to_vec(msg_type.as_str().as_bytes());
        let sender_bytes: Vec<u8> = slice_to_vec(sender_comp_id.as_str().as_bytes());
        let target_bytes: Vec<u8> = slice_to_vec(target_comp_id.as_str().as_bytes());
        let mut number_bytes: Vec<u8> = Vec::new();
        render_decimal(msg_seq_num, &mut number_bytes);
        assert(number_bytes@ =~= digits_of(msg_seq_num as nat));
        let mut message = Message {
            msg_type,
            sender_comp_id,
            target_comp_id,
            msg_seq_num,
            sending_time: None,
            fields: HashMap::new(),
            field_order: Vec::new(),
        };
        assert(message@.table.values =~= FieldsModel::empty().values);
        assert(message@.table.order =~= FieldsModel::empty().order);
        assert(FieldsModel::empty().wf());
        message.set_field(MSG_TYPE_TAG, type_bytes);
        message.set_field(SENDER_COMP_ID_TAG, sender_bytes);
        message.set_field(TARGET_COMP_ID_TAG, target_bytes);
        message.set_field(MSG_SEQ_NUM_TAG, number_bytes);
        message
    }

    /// Sets the field with `tag` to `value`. A field that the message did
    /// not have comes last in the order of its fields; one that it had
    /// keeps its place.
    pub fn set_field(&mut self, tag: u32, value: Vec<u8>)
        ensures
            final(self)@ == old(self)@.set(tag, value@),
            old(self)@.table.wf() ==> final(self)@.table.wf(),
    {
        if !self.fields.contains_key(&tag) {
            self.field_order.push(tag);
        }
        self.fields.insert(tag, value);
        proof {
            assert(self@.table.values =~= old(self)@.table.set(tag, value@).values);
            if old(self)@.table.wf() {
                lemma_set_keeps_order(old(self)@.table, tag, value@);
            }
        }
    }

    /// The tags of the fields, in the order in which they were first set.
    pub fn field_tags(&self) -> (r: &[u32])
        ensures
            r@ == self@.table.order,
    {
        self.field_order.as_slice()
    }

    /// The number of fields.
    pub fn field_count(&self) -> (r: usize)
        ensures
            r == self@.table.values.len(),
    {
        assert(self@.table.values.dom() =~= self.fields@.dom());
        self.fields.len()
    }

    /// The value of the field with tag `field`, where the message has it.
    pub fn get_raw(&self, field: u32) -> (r: Option<&[u8]>)
        ensures
            match r {
                Some(bytes) => self@.table.values.contains_key(field) && bytes@
                    == self@.table.values[field],
                None => !self@.table.values.contains_key(field),
            },
    {
        match self.fields.get(&field) {
            Some(value) => Some(value.as_slice()),
            None => None,
        }
    }
}

impl Message {
    /// The message that stands for a message with typed values, where the
    /// dictionary knows the type of the message; `None` where it does
    /// not.
    pub fn from_fix_message(fix_msg: &FixMessage, dictionary: &Dictionary) -> (r: Option<Message>)
        ensures
            spec_find_message(dictionary.messages@, fix_msg.msg_type@) is None ==> r is None,
            spec_find_message(dictionary.messages@, fix_msg.msg_type@) is Some ==> (r matches Some(
                m,
            ) && m@ == spec_from_fix_message(*fix_msg)),
    {
        if dictionary.message_by_msgtype(fix_msg.msg_type.as_str()).is_none() {
            return None;
        }
        let mut message = Message::new(
            fix_msg.msg_type.clone(),
            fix_msg.sender_comp_id.clone(),
            fix_msg.target_comp_id.clone(),
            fix_msg.msg_seq_num,
        );
        let n: usize = fix_msg.fields.len();
        let mut i: usize = 0;
        let mut found: bool = false;
        while i < n && !found
            invariant
                n == fix_msg.fields@.len(),
                i <= n,
                !found ==> spec_first_with_tag(fix_msg.fields@, SENDING_TIME_TAG, 0)
                    == spec_first_with_tag(fix_msg.fields@, SENDING_TIME_TAG, i as int),
                !found ==> message@ == MessageModel::start(
                    fix_msg.msg_type@,
                    fix_msg.sender_comp_id@,
                    fix_msg.target_comp_id@,
                    fix_msg.msg_seq_num,
                ),
                found ==> spec_with_fields(message@, fix_msg.fields@, 0) == spec_from_fix_message(
                    *fix_msg,
                ),
            decreases n - i + (if found { 0int } else { 1int }),
        {
            if fix_msg.fields[i].tag == SENDING_TIME_TAG {
                let sending_time: String = fix_msg.fields[i].value.to_string();
                let bytes: Vec<u8> = slice_to_vec(sending_time.as_str().as_bytes());
                message.sending_time = Some(sending_time);
                message.set_field(SENDING_TIME_TAG, bytes);
                found = true;
            } else {
                i += 1;
            }
        }
        let mut k: usize = 0;
        while k < n
            invariant
                n == fix_msg.fields@.len(),
                k <= n,
                spec_with_fields(message@, fix_msg.fields@, k as int) == spec_from_fix_message(
                    *fix_msg,
                ),
            decreases n - k,
        {
            if fix_msg.fields[k].tag != SENDING_TIME_TAG {
                message.set_field(fix_msg.fields[k].tag, fix_msg.fields[k].value.as_bytes());
            }
            k += 1;
        }
        Some(message)
    }

    /// The message with typed values that stands for this one: its head,
    /// and the other fields that have a value, in their order, each with
    /// the typed value that its bytes make as text.
    pub fn to_fix_message(&self) -> (r: FixMessage)
        ensures
            r.msg_type@ == self@.msg_type,
            r.sender_comp_id@ == self@.sender_comp_id,
            r.target_comp_id@ == self@.target_comp_id,
            r.msg_seq_num == self@.msg_seq_num,
            r.fields@.len() == spec_kept(self@.table, self@.table.order.len() as int).len(),
            forall|i: int|
                0 <= i < r.fields@.len() ==> spec_is_typed_of(
                    #[trigger] r.fields@[i],
                    self@.table,
                    spec_kept(self@.table, self@.table.order.len() as int)[i],
                ),
    {
        let mut fields: Vec<Field> = Vec::new();
        let n: usize = self.field_order.len();
        let mut i: usize = 0;
        while i < n
            invariant
                n == self.field_order@.len(),
                i <= n,
                fields@.len() == spec_kept(self@.table, i as int).len(),
                forall|j: int|
                    0 <= j < fields@.len() ==> spec_is_typed_of(
                        #[trigger] fields@[j],
                        self@.table,
                        spec_kept(self@.table, i as int)[j],
                    ),
            decreases n - i,
        {
            let tag: u32 = self.field_order[i];
            if !is_head_tag(tag) {
                match self.fields.get(&tag) {
                    Some(value) => {
                        let text: String = string_from_utf8_lossy(value.as_slice());
                        fields.push(Field { tag, value: FixFieldValue::from_string(text) });
                    },
                    None => {},
                }
            }
            i += 1;
        }
        FixMessage {
            msg_type: self.msg_type.clone(),
            sender_comp_id: self.sender_comp_id.clone(),
            target_comp_id: self.target_comp_id.clone(),
            msg_seq_num: self.msg_seq_num,
            fields,
        }
    }

    /// The field with tag `field`, read as a `V`.
    pub fn get<'a, V: FieldType<'a>>(&'a self, field: u32) -> (r: Result<
        V,
        FieldValueError<V::Error>,
    >)
        ensures
            spec_reads::<V>(self@.table.values, field, false, r),
    {
        match self.get_raw(field) {
            None => Err(FieldValueError::Missing),
            Some(data) => match V::deserialize(data) {
                Ok(v) => Ok(v),
                Err(e) => Err(FieldValueError::Invalid(e)),
            },
        }
    }

    /// The field with tag `field`, read as a `V`, or `None` where the
    /// message does not have it.
    pub fn get_opt<'a, V: FieldType<'a>>(&'a self, field: u32) -> (r: Result<Option<V>, V::Error>)
        ensures
            spec_reads_opt::<V>(self@.table.values, field, false, r),
    {
        match self.get_raw(field) {
            None => Ok(None),
            Some(data) => match V::deserialize(data) {
                Ok(v) => Ok(Some(v)),
                Err(e) => Err(e),
            },
        }
    }

    /// The field with tag `field`, read as a `V` by a reader that
    /// forgives slips.
    pub fn get_lossy<'a, V: FieldType<'a>>(&'a self, field: u32) -> (r: Result<
        V,
        FieldValueError<V::Error>,
    >)
        ensures
            spec_reads::<V>(self@.table.values, field, true, r),
    {
        match self.get_raw(field) {
            None => Err(FieldValueError::Missing),
            Some(data) => match V::deserialize_lossy(data) {
                Ok(v) => Ok(v),
                Err(e) => Err(FieldValueError::Invalid(e)),
            },
        }
    }

    /// The field with tag `field`, read as a `V` by a reader that
    /// forgives slips, or `None` where the message does not have it.
    pub fn get_lossy_opt<'a, V: FieldType<'a>>(&'a self, field: u32) -> (r: Result<
        Option<V>,
        V::Error,
    >)
        ensures
            spec_reads_opt::<V>(self@.table.values, field, true, r),
    {
        match self.get_raw(field) {
            None => Ok(None),
            Some(data) => match V::deserialize_lossy(data) {
                Ok(v) => Ok(Some(v)),
                Err(e) => Err(e),
            },
        }
    }

    /// As many entries as `count` says, each a message that stands in for
    /// the entry.
    fn parse_group_entries(count: usize) -> (r: Vec<Message>)
        ensures
            r@.len() == count,
            forall|i: int| 0 <= i < count ==> (#[trigger] r@[i])@ == spec_group_entry(i),
    {
        let mut entries: Vec<Message> = Vec::new();
        let mut i: usize = 0;
        while i < count
            invariant
                i <= count,
                entries@.len() == i,
                forall|j: int| 0 <= j < i ==> (#[trigger] entries@[j])@ == spec_group_entry(j),
            decreases count - i,
        {
            let sender: String = String::from_str("GROUP_SENDER_").concat(
                unsigned_to_string(i as u64).as_str(),
            );
            let target: String = String::from_str("GROUP_TARGET_").concat(
                unsigned_to_string(i as u64).as_str(),
            );
            let entry = Message::new(String::from_str("8"), sender, target, i as u64 + 1);
            entries.push(entry);
            i += 1;
        }
        entries
    }

    /// The repeating group that the field with tag `field` counts:
    /// `Missing` where the message has no such field, `Invalid` where its
    /// value is no count, and else as many entries as it counts.
    pub fn group(&self, field: u32) -> (r: Result<MessageGroup, FieldValueError<InvalidInt>>)
        ensures
            !self@.table.values.contains_key(field) ==> r matches Err(FieldValueError::Missing),
            self@.table.values.contains_key(field) ==> match spec_parse_unsigned(
                self@.table.values[field],
                usize::MAX as nat,
            ) {
                None => r matches Err(e) && e == FieldValueError::Invalid(InvalidInt),
                Some(n) => r matches Ok(g) && g@.len() == n && forall|i: int|
                    0 <= i < n ==> #[trigger] g@[i] == spec_group_entry(i),
            },
    {
        match self.get::<usize>(field) {
            Err(e) => Err(e),
            Ok(count) => Ok(MessageGroup::new(Message::parse_group_entries(count))),
        }
    }

    /// The repeating group that the field with tag `field` counts, or
    /// `None` where the message has no such field.
    pub fn group_opt(&self, field: u32) -> (r: Result<Option<MessageGroup>, InvalidInt>)
        ensures
            !self@.table.values.contains_key(field) ==> r matches Ok(None),
            self@.table.values.contains_key(field) ==> match spec_parse_unsigned(
                self@.table.values[field],
                usize::MAX as nat,
            ) {
                None => r is Err,
                Some(n) => r matches Ok(Some(g)) && g@.len() == n && forall|i: int|
                    0 <= i < n ==> #[trigger] g@[i] == spec_group_entry(i),
            },
    {
        match self.get_opt::<usize>(field) {
            Err(e) => Err(e),
            Ok(None) => Ok(None),
            Ok(Some(count)) => Ok(Some(MessageGroup::new(Message::parse_group_entries(count)))),
        }
    }

    /// `MsgType(35)`, as text.
    pub fn message_type(&self) -> (r: Result<Asn1String, FieldValueError<Asn1FieldError>>)
        ensures
            spec_reads::<Asn1String>(self@.table.values, MSG_TYPE_TAG, false, r),
    {
        self.get::<Asn1String>(MSG_TYPE_TAG)
    }

    /// `SenderCompID(49)`, as text.
    pub fn sender_comp_id(&self) -> (r: Result<Asn1String, FieldValueError<Asn1FieldError>>)
        ensures
            spec_reads::<Asn1String>(self@.table.values, SENDER_COMP_ID_TAG, false, r),
    {
        self.get::<Asn1String>(SENDER_COMP_ID_TAG)
    }

    /// `TargetCompID(56)`, as text.
    pub fn target_comp_id(&self) -> (r: Result<Asn1String, FieldValueError<Asn1FieldError>>)
        ensures
            spec_reads::<Asn1String>(self@.table.values, TARGET_COMP_ID_TAG, false, r),
    {
        self.get::<Asn1String>(TARGET_COMP_ID_TAG)
    }

    /// `MsgSeqNum(34)`, as a number.
    pub fn msg_seq_num(&self) -> (r: Result<Asn1UInteger, FieldValueError<Asn1FieldError>>)
        ensures
            spec_reads::<Asn1UInteger>(self@.table.values, MSG_SEQ_NUM_TAG, false, r),
    {
        self.get::<Asn1UInteger>(MSG_SEQ_NUM_TAG)
    }

    /// `SendingTime(52)`, as text, where the message has it.
    pub fn sending_time(&self) -> (r: Result<Option<Asn1String>, Asn1FieldError>)
        ensures
            spec_reads_opt::<Asn1String>(self@.table.values, SENDING_TIME_TAG, false, r),
    {
        self.get_opt::<Asn1String>(SENDING_TIME_TAG)
    }

    /// `Symbol(55)`, as text, where the message has it.
    pub fn symbol(&self) -> (r: Result<Option<Asn1String>, Asn1FieldError>)
        ensures
            spec_reads_opt::<Asn1String>(self@.table.values, 55, false, r),
    {
        self.get_opt::<Asn1String>(55)
    }

    /// `Side(54)`, as text, where the message has it.
    pub fn side(&self) -> (r: Result<Option<Asn1String>, Asn1FieldError>)
        ensures
            spec_reads_opt::<Asn1String>(self@.table.values, 54, false, r),
    {
        self.get_opt::<Asn1String>(54)
    }

    /// `OrderQty(38)`, as a number, where the message has it.
    pub fn order_qty(&self) -> (r: Result<Option<Asn1UInteger>, Asn1FieldError>)
        ensures
            spec_reads_opt::<Asn1UInteger>(self@.table.values, 38, false, r),
    {
        self.get_opt::<Asn1UInteger>(38)
    }

    /// `Price(44)`, as text, where the message has it.
    pub fn price(&self) -> (r: Result<Option<Asn1String>, Asn1FieldError>)
        ensures
            spec_reads_opt::<Asn1String>(self@.table.values, 44, false, r),
    {
        self.get_opt::<Asn1String>(44)
    }
}

impl Message {
    /// The message that stands for a message of texts: its head, the
    /// sending time where it has one, and then its fields in their order,
    /// the sending time among them if it is.
    pub fn from_asn1_message(asn1_msg: &Asn1FixMessage) -> (r: Message)
        ensures
            r@ == spec_from_asn1_message(*asn1_msg),
    {
        let mut message = Message::new(
            asn1_msg.msg_type.clone(),
            asn1_msg.sender_comp_id.clone(),
            asn1_msg.target_comp_id.clone(),
            asn1_msg.msg_seq_num,
        );
        match &asn1_msg.sending_time {
            Some(sending_time) => {
                let bytes: Vec<u8> = slice_to_vec(sending_time.as_str().as_bytes());
                message.sending_time = Some(sending_time.clone());
                message.set_field(SENDING_TIME_TAG, bytes);
            },
            None => {},
        }
        let n: usize = asn1_msg.fields.len();
        let mut k: usize = 0;
        while k < n
            invariant
                n == asn1_msg.fields@.len(),
                k <= n,
                spec_with_texts(message@, asn1_msg.fields@, k as int) == spec_from_asn1_message(
                    *asn1_msg,
                ),
            decreases n - k,
        {
            let bytes: Vec<u8> = slice_to_vec(asn1_msg.fields[k].value.as_str().as_bytes());
            message.set_field(asn1_msg.fields[k].tag, bytes);
            k += 1;
        }
        message
    }

    /// The message of texts that stands for this one: its head with the
    /// sending time, and the other fields that have a value and a tag that
    /// the dictionary knows, in their order, each with its bytes as text.
    pub fn to_asn1_message(&self, dictionary: &Dictionary) -> (r: Option<Asn1FixMessage>)
        ensures
            r matches Some(m) && {
                let kept = spec_kept_known(
                    self@.table,
                    dictionary.fields@,
                    self@.table.order.len() as int,
                );
                &&& m.msg_type@ == self@.msg_type
                &&& m.sender_comp_id@ == self@.sender_comp_id
                &&& m.target_comp_id@ == self@.target_comp_id
                &&& m.msg_seq_num == self@.msg_seq_num
                &&& match (m.sending_time, self@.sending_time) {
                    (Some(a), Some(b)) => a@ == b,
                    (None, None) => true,
                    _ => false,
                }
                &&& m.fields@.len() == kept.len()
                &&& forall|i: int|
                    0 <= i < m.fields@.len() ==> spec_is_text_of(
                        #[trigger] m.fields@[i],
                        self@.table,
                        kept[i],
                    )
            },
    {
        let mut fields: Vec<Asn1Field> = Vec::new();
        let n: usize = self.field_order.len();
        let mut i: usize = 0;
        while i < n
            invariant
                n == self.field_order@.len(),
                i <= n,
                fields@.len() == spec_kept_known(self@.table, dictionary.fields@, i as int).len(),
                forall|j: int|
                    0 <= j < fields@.len() ==> spec_is_text_of(
                        #[trigger] fields@[j],
                        self@.table,
                        spec_kept_known(self@.table, dictionary.fields@, i as int)[j],
                    ),
            decreases n - i,
        {
            let tag: u32 = self.field_order[i];
            let ghost before = spec_kept_known(self@.table, dictionary.fields@, i as int);
            let ghost old_fields = fields@;
            let known: bool = dictionary.field_by_tag(tag).is_some();
            if !is_head_tag(tag) && known {
                match self.fields.get(&tag) {
                    Some(value) => {
                        let text: String = string_from_utf8_lossy(value.as_slice());
                        fields.push(Asn1Field { tag, value: text });
                    },
                    None => {},
                }
            }
            proof {
                let after = spec_kept_known(self@.table, dictionary.fields@, i + 1);
                assert forall|j: int| 0 <= j < fields@.len() implies spec_is_text_of(
                    #[trigger] fields@[j],
                    self@.table,
                    after[j],
                ) by {
                    if j < old_fields.len() {
                        assert(fields@[j] == old_fields[j]);
                        assert(after[j] == before[j]);
                    }
                }
            }
            i += 1;
        }
        let sending_time: Option<String> = match &self.sending_time {
            Some(time) => Some(time.clone()),
            None => None,
        };
        Some(
            Asn1FixMessage {
                msg_type: self.msg_type.clone(),
                sender_comp_id: self.sender_comp_id.clone(),
                target_comp_id: self.target_comp_id.clone(),
                msg_seq_num: self.msg_seq_num,
                sending_time,
                fields,
            },
        )
    }
}

/// A repeating group of messages: its entries, one after the other.
#[derive(Debug, Clone, PartialEq)]
pub struct MessageGroup {
    entries: Vec<Message>,
}

impl View for MessageGroup {
    type V = Seq<MessageModel>;

    closed spec fn view(&self) -> Seq<MessageModel> {
        spec_models(self.entries@)
    }
}

impl MessageGroup {
    /// A group with `entries`.
    pub fn new(entries: Vec<Message>) -> (r: MessageGroup)
        ensures
            r@ == spec_models(entries@),
    {
        MessageGroup { entries }
    }

    /// Adds an entry behind the others.
    pub fn add_entry(&mut self, entry: Message)
        ensures
            final(self)@ == old(self)@.push(entry@),
    {
        self.entries.push(entry);
        assert(self@ =~= old(self)@.push(entry@));
    }
}

impl RepeatingGroup for MessageGroup {
    type Entry = Message;

    open spec fn spec_len(&self) -> usize {
        self@.len() as usize
    }

    fn len(&self) -> (r: usize)
        ensures
            r == self@.len(),
    {
        self.entries.len()
    }

    fn is_empty(&self) -> (r: bool) {
        self.entries.len() == 0
    }

    fn get(&self, index: usize) -> (r: Option<Message>)
        ensures
            r matches Some(entry) ==> index < self@.len() && entry@ == self@[index as int],
    {
        if index < self.entries.len() {
            Some(self.entries[index].clone())
        } else {
            None
        }
    }
}

impl Clone for Message {
    /// A message with the same fields.
    fn clone(&self) -> (r: Message)
        ensures
            r@ == self@,
    {
        let sending_time: Option<String> = match &self.sending_time {
            Some(time) => Some(time.clone()),
            None => None,
        };
        let r = Message {
            msg_type: self.msg_type.clone(),
            sender_comp_id: self.sender_comp_id.clone(),
            target_comp_id: self.target_comp_id.clone(),
            msg_seq_num: self.msg_seq_num,
            sending_time,
            fields: self.fields.clone(),
            field_order: self.field_order.clone(),
        };
        assert(r@.table.order =~= self@.table.order);
        assert(r@.table.values =~= self@.table.values);
        r
    }
}

} // verus!
