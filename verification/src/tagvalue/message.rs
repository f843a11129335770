//! Views of a decoded message.
//!
//! A view shows the fields of one context: those at the root of the message,
//! or those of one entry of a repeating group. Entries are not built in
//! advance; a view of one is made when it is asked for.
use super::builder::{FieldCell, MessageBuilder, MessageRecord};
use super::digits::{parse_unsigned, spec_parse_unsigned};
use super::locator::{FieldLocator, FieldLocatorContext};
use crate::traits::{
    FieldMap, FieldType, FieldValueError, InvalidInt, InvalidUtf8, RepeatingGroup,
};
use vstd::prelude::*;

verus! {

/// A decoded message, or one entry of a repeating group in it, for reading.
#[derive(Debug, Clone, Copy)]
pub struct Message<'a> {
    pub(crate) builder: &'a MessageBuilder,
    pub(crate) field_locator_context: FieldLocatorContext,
}

/// A repeating group of a message.
#[derive(Debug, Clone, Copy)]
pub struct MessageGroup<'a> {
    pub(crate) message: Message<'a>,
    pub(crate) index_of_group_tag: usize,
    pub(crate) len: usize,
}

/// The fields of a message in wire order, one at a time.
#[derive(Debug, Clone, Copy)]
pub struct Fields<'a> {
    pub(crate) message: Message<'a>,
    pub(crate) i: usize,
}

/// The fields of `record` from position `from` on, in wire order, each
/// with the value under which its locator is stored. Fields that were
/// removed are left out.
pub open spec fn spec_fields_from(record: MessageRecord, from: int) -> Seq<(u32, Seq<u8>)>
    decreases record.locators.len() - from,
{
    if from < 0 || from >= record.locators.len() {
        Seq::empty()
    } else {
        let locator = record.locators[from];
        let rest = spec_fields_from(record, from + 1);
        if record.fields.contains_key(locator) {
            seq![(record.fields[locator].tag, record.fields[locator].value)] + rest
        } else {
            rest
        }
    }
}

/// With no field removed, as many fields come out as the message has.
pub proof fn lemma_fields_from_len(record: MessageRecord, from: int)
    requires
        record.complete(),
        0 <= from <= record.locators.len(),
    ensures
        spec_fields_from(record, from).len() == record.locators.len() - from,
    decreases record.locators.len() - from,
{
    if from < record.locators.len() {
        lemma_fields_from_len(record, from + 1);
    }
}

/// What asking a view for a group gives.
pub open spec fn spec_group(record: MessageRecord, context: FieldLocatorContext, tag: u32) -> Result<
    (usize, usize),
    FieldValueError<InvalidInt>,
> {
    match record.raw(context, tag) {
        None => Err(FieldValueError::Missing),
        Some(value) => match spec_parse_unsigned(value, usize::MAX as nat) {
            None => Err(FieldValueError::Invalid(InvalidInt)),
            Some(n) => Ok((record.fields[FieldLocator { tag, context }].index, n as usize)),
        },
    }
}

impl<'a> Message<'a> {
    /// The message that this view shows a part of.
    pub closed spec fn record(self) -> MessageRecord {
        self.builder@.record
    }

    /// The part of the message that this view shows.
    pub closed spec fn context(self) -> FieldLocatorContext {
        self.field_locator_context
    }

    /// A view of the part `context` of the message in `builder`.
    pub fn new(builder: &'a MessageBuilder, context: FieldLocatorContext) -> (r: Message<'a>)
        ensures
            r.record() == builder@.record,
            r.context() == context,
    {
        Message { builder, field_locator_context: context }
    }

    /// The bytes of the whole message as they were on the wire.
    pub fn as_bytes(&self) -> (r: &'a [u8])
        ensures
            r@ == self.record().bytes,
    {
        self.builder.bytes.as_slice()
    }

    /// The number of fields that were on the wire, those of groups
    /// included.
    pub fn len(&self) -> (r: usize)
        ensures
            r == self.record().locators.len(),
    {
        self.builder.len()
    }

    /// Whether the message has no field at all.
    pub fn is_empty(&self) -> (r: bool)
        ensures
            r == (self.record().locators.len() == 0),
    {
        self.len() == 0
    }

    /// The value of the field with `tag` in this view's context. Asking
    /// again gives the same bytes: the answer depends on the message, the
    /// context and the tag alone.
    pub fn get_raw(&self, tag: u32) -> (r: Option<&'a [u8]>)
        ensures
            match self.record().raw(self.context(), tag) {
                Some(value) => r matches Some(bytes) && bytes@ == value,
                None => r is None,
            },
    {
        if tag == 0 {
            return None;
        }
        let field_locator = FieldLocator { tag, context: self.field_locator_context };
        match self.builder.get(&field_locator) {
            Some(field) => Some(field.1.as_slice()),
            None => None,
        }
    }

    /// The field with `tag` in this view's context, read as a `V`.
    /// `Missing` says that there is no such field, `Invalid` that its
    /// value cannot be read as a `V`.
    pub fn get<V>(&self, tag: u32) -> (r: Result<V, FieldValueError<V::Error>>) where
        V: FieldType<'a>,

        ensures
            match self.record().raw(self.context(), tag) {
                None => r matches Err(FieldValueError::Missing),
                Some(value) => {
                    &&& r is Ok <==> V::readable(value)
                    &&& r matches Ok(v) ==> V::reads_as(value, v)
                    &&& r matches Err(e) ==> e == FieldValueError::Invalid(V::read_error(value, false))
                },
            },
    {
        match self.get_raw(tag) {
            None => Err(FieldValueError::Missing),
            Some(bytes) => match V::deserialize(bytes) {
                Ok(v) => Ok(v),
                Err(e) => Err(FieldValueError::Invalid(e)),
            },
        }
    }

    /// The type of the message: the value of `MsgType(35)`, as text.
    pub fn msg_type(&self) -> (r: Result<String, FieldValueError<InvalidUtf8>>)
        ensures
            match self.record().raw(self.context(), 35) {
                None => r matches Err(FieldValueError::Missing),
                Some(value) => {
                    &&& r is Ok <==> vstd::utf8::valid_utf8(value)
                    &&& r matches Ok(v) ==> v@ == vstd::utf8::decode_utf8(value)
                    &&& r matches Err(e) ==> e == FieldValueError::Invalid(InvalidUtf8)
                },
            },
    {
        self.get::<String>(35)
    }

    /// The repeating group whose count is the field with `tag` in this
    /// view's context. The group has as many entries as the count says.
    pub fn group(&self, tag: u32) -> (r: Result<MessageGroup<'a>, FieldValueError<InvalidInt>>)
        ensures
            match spec_group(self.record(), self.context(), tag) {
                Ok((index, len)) => r matches Ok(group) && group.record() == self.record()
                    && group.index_of_group_tag() == index && group.count() == len,
                Err(e) => r matches Err(err) && err == e,
            },
    {
        if tag == 0 {
            return Err(FieldValueError::Missing);
        }
        let field_locator_of_group_tag = FieldLocator { tag, context: self.field_locator_context };
        let num_in_group: &FieldCell = match self.builder.get(&field_locator_of_group_tag) {
            Some(cell) => cell,
            None => {
                return Err(FieldValueError::Missing);
            },
        };
        let num_entries: usize = match parse_unsigned(
            num_in_group.1.as_slice(),
            usize::MAX as u64,
        ) {
            Some(n) => n as usize,
            None => {
                return Err(FieldValueError::Invalid(InvalidInt));
            },
        };
        Ok(
            MessageGroup {
                message: Message {
                    builder: self.builder,
                    field_locator_context: self.field_locator_context,
                },
                index_of_group_tag: num_in_group.2,
                len: num_entries,
            },
        )
    }

    /// The fields of the whole message in wire order, to be taken one at a
    /// time.
    pub fn fields(&self) -> (r: Fields<'a>)
        ensures
            r.record() == self.record(),
            r.position() == 0,
    {
        Fields {
            message: Message {
                builder: self.builder,
                field_locator_context: self.field_locator_context,
            },
            i: 0,
        }
    }
}

impl<'a> FieldMap<'a, u32> for Message<'a> {
    type Group = MessageGroup<'a>;

    open spec fn spec_raw(&self, field: u32) -> Option<Seq<u8>> {
        self.record().raw(self.context(), field)
    }

    fn get_raw(&self, field: u32) -> (r: Option<&'a [u8]>) {
        Message::get_raw(self, field)
    }

    fn get<V: FieldType<'a>>(&self, field: u32) -> (r: Result<V, FieldValueError<V::Error>>) {
        Message::get::<V>(self, field)
    }

    fn get_opt<V: FieldType<'a>>(&self, field: u32) -> (r: Result<Option<V>, V::Error>) {
        match Message::get_raw(self, field) {
            None => Ok(None),
            Some(bytes) => match V::deserialize(bytes) {
                Ok(v) => Ok(Some(v)),
                Err(e) => Err(e),
            },
        }
    }

    fn get_lossy<V: FieldType<'a>>(&self, field: u32) -> (r: Result<
        V,
        FieldValueError<V::Error>,
    >) {
        match Message::get_raw(self, field) {
            None => Err(FieldValueError::Missing),
            Some(bytes) => match V::deserialize_lossy(bytes) {
                Ok(v) => Ok(v),
                Err(e) => Err(FieldValueError::Invalid(e)),
            },
        }
    }

    fn get_lossy_opt<V: FieldType<'a>>(&self, field: u32) -> (r: Result<Option<V>, V::Error>) {
        match Message::get_raw(self, field) {
            None => Ok(None),
            Some(bytes) => match V::deserialize_lossy(bytes) {
                Ok(v) => Ok(Some(v)),
                Err(e) => Err(e),
            },
        }
    }

    fn group(&self, field: u32) -> (r: Result<MessageGroup<'a>, FieldValueError<InvalidInt>>) {
        Message::group(self, field)
    }

    fn group_opt(&self, field: u32) -> (r: Result<Option<MessageGroup<'a>>, InvalidInt>) {
        match Message::group(self, field) {
            Ok(group) => Ok(Some(group)),
            Err(FieldValueError::Missing) => Ok(None),
            Err(FieldValueError::Invalid(e)) => Err(e),
        }
    }
}

impl<'a> RepeatingGroup for MessageGroup<'a> {
    type Entry = Message<'a>;

    closed spec fn spec_len(&self) -> usize {
        self.len
    }

    fn len(&self) -> (r: usize) {
        self.len
    }

    fn is_empty(&self) -> (r: bool) {
        self.len == 0
    }

    fn get(&self, index: usize) -> (r: Option<Message<'a>>) {
        MessageGroup::get(self, index)
    }
}

impl<'a> MessageGroup<'a> {
    /// The message that the group is part of.
    pub closed spec fn record(self) -> MessageRecord {
        self.message.record()
    }

    /// The number of the group's count among the fields of the message.
    pub closed spec fn index_of_group_tag(self) -> usize {
        self.index_of_group_tag
    }

    /// The number of entries.
    pub closed spec fn count(self) -> usize {
        self.len
    }

    /// The number of entries, as the count field says it.
    pub fn len(&self) -> (r: usize)
        ensures
            r == self.count(),
    {
        self.len
    }

    /// Whether the group has no entry.
    pub fn is_empty(&self) -> (r: bool)
        ensures
            r == (self.count() == 0),
    {
        self.len == 0
    }

    /// A view of entry `i`, counted from 0; `None` where the group has
    /// fewer entries.
    pub fn get(&self, i: usize) -> (r: Option<Message<'a>>)
        ensures
            i < self.count() ==> (r matches Some(entry) && entry.record() == self.record()
                && entry.context() == (FieldLocatorContext::WithinGroup {
                index_of_group_tag: self.index_of_group_tag(),
                entry_index: i,
            })),
            i >= self.count() ==> r is None,
    {
        if i < self.len {
            Some(
                Message {
                    builder: self.message.builder,
                    field_locator_context: FieldLocatorContext::WithinGroup {
                        index_of_group_tag: self.index_of_group_tag,
                        entry_index: i,
                    },
                },
            )
        } else {
            None
        }
    }
}

impl<'a> Fields<'a> {
    /// The message whose fields these are.
    pub closed spec fn record(self) -> MessageRecord {
        self.message.record()
    }

    /// The number of fields that were passed.
    pub closed spec fn position(self) -> int {
        self.i as int
    }

    /// The number of fields of the message.
    pub fn len(&self) -> (r: usize)
        ensures
            r == self.record().locators.len(),
    {
        self.message.len()
    }

    /// The next field that was not removed: its tag and its value. `None`
    /// behind the last one.
    pub fn next(&mut self) -> (r: Option<(u32, &'a [u8])>)
        ensures
            final(self).record() == old(self).record(),
            old(self).position() <= final(self).position(),
            r is Some ==> old(self).position() < final(self).position(),
            match r {
                Some((tag, value)) => spec_fields_from(old(self).record(), old(self).position())
                    == seq![(tag, value@)] + spec_fields_from(
                    final(self).record(),
                    final(self).position(),
                ),
                None => spec_fields_from(old(self).record(), old(self).position()).len() == 0
                    && spec_fields_from(final(self).record(), final(self).position()).len() == 0,
            },
    {
        let locators: &[FieldLocator] = self.message.builder.field_locators.as_slice();
        while self.i < locators.len()
            invariant
                self.message == old(self).message,
                old(self).i <= self.i,
                locators@ == self.message.builder@.record.locators,
                spec_fields_from(self.message.builder@.record, self.i as int) == spec_fields_from(
                    old(self).message.builder@.record,
                    old(self).i as int,
                ),
            decreases locators.len() - self.i,
        {
            let locator: FieldLocator = locators[self.i];
            let found: Option<&FieldCell> = self.message.builder.get(&locator);
            self.i = self.i + 1;
            match found {
                Some(field) => {
                    return Some((field.0, field.1.as_slice()));
                },
                None => {},
            }
        }
        None
    }

    /// All the fields that are left, in wire order.
    pub fn collect(&mut self) -> (r: Vec<(u32, Vec<u8>)>)
        ensures
            final(self).record() == old(self).record(),
            r@.len() == spec_fields_from(old(self).record(), old(self).position()).len(),
            forall|k: int|
                0 <= k < r@.len() ==> (#[trigger] r@[k]).0 == spec_fields_from(
                    old(self).record(),
                    old(self).position(),
                )[k].0 && r@[k].1@ == spec_fields_from(old(self).record(), old(self).position())[k].1,
    {
        let mut out: Vec<(u32, Vec<u8>)> = Vec::new();
        let ghost all = spec_fields_from(old(self).record(), old(self).position());
        loop
            invariant
                self.record() == old(self).record(),
                all == spec_fields_from(old(self).record(), old(self).position()),
                out@.len() + spec_fields_from(self.record(), self.position()).len() == all.len(),
                forall|k: int|
                    0 <= k < out@.len() ==> (#[trigger] out@[k]).0 == all[k].0 && out@[k].1@
                        == all[k].1,
                forall|k: int|
                    0 <= k < spec_fields_from(self.record(), self.position()).len()
                        ==> #[trigger] spec_fields_from(self.record(), self.position())[k]
                        == all[out@.len() + k],
            ensures
                self.record() == old(self).record(),
                out@.len() == all.len(),
                forall|k: int|
                    0 <= k < out@.len() ==> (#[trigger] out@[k]).0 == all[k].0 && out@[k].1@
                        == all[k].1,
            decreases spec_fields_from(self.record(), self.position()).len(),
        {
            let ghost before = spec_fields_from(self.record(), self.position());
            let ghost pos0 = self.position();
            match self.next() {
                None => {
                    break ;
                },
                Some((tag, value)) => {
                    let ghost after = spec_fields_from(self.record(), self.position());
                    proof {
                        assert(before == seq![(tag, value@)] + after);
                        assert(before[0] == (tag, value@));
                        assert forall|k: int| 0 <= k < after.len() implies #[trigger] after[k]
                            == all[out@.len() + 1 + k] by {
                            assert(before[k + 1] == after[k]);
                        }
                    }
                    out.push((tag, vstd::slice::slice_to_vec(value)));
                },
            }
        }
        out
    }
}

/// A decoded message, or one entry of a repeating group in it, for reading
/// and for taking fields out.
#[derive(Debug)]
pub struct MessageMut<'a> {
    /// The message, on loan from its decoder.
    pub builder: &'a mut MessageBuilder,
    /// The part of the message that this view shows.
    pub field_locator_context: FieldLocatorContext,
}

impl<'a> MessageMut<'a> {
    /// The message that this view shows a part of.
    pub open spec fn record(&self) -> MessageRecord {
        self.builder@.record
    }

    /// The part of the message that this view shows.
    pub open spec fn context(&self) -> FieldLocatorContext {
        self.field_locator_context
    }

    /// A view of the part `context` of the message in `builder`.
    pub fn new(builder: &'a mut MessageBuilder, context: FieldLocatorContext) -> (r: MessageMut<'a>)
        ensures
            r.record() == old(builder)@.record,
            r.context() == context,
            *final(builder) == *final(r.builder),
    {
        MessageMut { builder, field_locator_context: context }
    }

    /// The same part of the same message, for reading only.
    pub fn as_read_only(&self) -> (r: Message<'_>)
        ensures
            r.record() == self.record(),
            r.context() == self.context(),
    {
        Message { builder: &*self.builder, field_locator_context: self.field_locator_context }
    }

    /// The bytes of the whole message as they were on the wire.
    pub fn as_bytes(&self) -> (r: &[u8])
        ensures
            r@ == self.record().bytes,
    {
        self.builder.bytes.as_slice()
    }

    /// The number of fields that were on the wire, those of groups
    /// included. Taking a field out does not change it.
    pub fn len(&self) -> (r: usize)
        ensures
            r == self.record().locators.len(),
    {
        self.builder.len()
    }

    /// Whether the message had no field at all.
    pub fn is_empty(&self) -> (r: bool)
        ensures
            r == (self.record().locators.len() == 0),
    {
        self.builder.len() == 0
    }

    /// The value of the field with `tag` in this view's context.
    pub fn get_raw(&self, tag: u32) -> (r: Option<&[u8]>)
        ensures
            match self.record().raw(self.context(), tag) {
                Some(value) => r matches Some(bytes) && bytes@ == value,
                None => r is None,
            },
    {
        if tag == 0 {
            return None;
        }
        let field_locator = FieldLocator { tag, context: self.field_locator_context };
        match self.builder.get(&field_locator) {
            Some(field) => Some(field.1.as_slice()),
            None => None,
        }
    }

    /// The field with `tag` in this view's context, read as a `V`.
    /// `Missing` says that there is no such field, `Invalid` that its
    /// value cannot be read as a `V`.
    pub fn get<'b, V>(&'b self, tag: u32) -> (r: Result<V, FieldValueError<V::Error>>) where
        V: FieldType<'b>,

        ensures
            match self.record().raw(self.context(), tag) {
                None => r matches Err(FieldValueError::Missing),
                Some(value) => {
                    &&& r is Ok <==> V::readable(value)
                    &&& r matches Ok(v) ==> V::reads_as(value, v)
                    &&& r matches Err(e) ==> e == FieldValueError::Invalid(V::read_error(value, false))
                },
            },
    {
        if tag == 0 {
            return Err(FieldValueError::Missing);
        }
        let field_locator = FieldLocator { tag, context: self.field_locator_context };
        match self.builder.get(&field_locator) {
            Some(field) => match V::deserialize(field.1.as_slice()) {
                Ok(v) => Ok(v),
                Err(e) => Err(FieldValueError::Invalid(e)),
            },
            None => Err(FieldValueError::Missing),
        }
    }

    /// The type of the message: the value of `MsgType(35)`, as text.
    pub fn msg_type(&self) -> (r: Result<String, FieldValueError<InvalidUtf8>>)
        ensures
            match self.record().raw(self.context(), 35) {
                None => r matches Err(FieldValueError::Missing),
                Some(value) => {
                    &&& r is Ok <==> vstd::utf8::valid_utf8(value)
                    &&& r matches Ok(v) ==> v@ == vstd::utf8::decode_utf8(value)
                    &&& r matches Err(e) ==> e == FieldValueError::Invalid(InvalidUtf8)
                },
            },
    {
        self.get::<String>(35)
    }

    /// Takes the field with `tag` in this view's context out of the
    /// message. The other fields stay what and where they are; tag 0 names
    /// no field.
    pub fn remove(&mut self, tag: u32)
        ensures
            final(self).context() == old(self).context(),
            final(self).builder@.state == old(self).builder@.state,
            tag == 0 ==> final(self).record() == old(self).record(),
            tag != 0 ==> final(self).record() == old(self).record().without_field(
                FieldLocator { tag, context: old(self).context() },
            ),
    {
        if tag != 0 {
            let field_locator = FieldLocator { tag, context: self.field_locator_context };
            self.builder.remove(&field_locator);
        }
    }
}

} // verus!
