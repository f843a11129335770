//! The part of a FIX dictionary that the codecs consult: which fields there
//! are, and of what type their values are.
use crate::text::str_eq;
use vstd::prelude::*;

verus! {

/// The tag of a field: a number that is not 0.
#[derive(Debug, Clone, Copy, PartialEq, Eq, Hash)]
pub struct TagU32 {
    value: u32,
}

impl TagU32 {
    #[verifier::type_invariant]
    spec fn not_zero(self) -> bool {
        self.value != 0
    }

    /// The number.
    pub closed spec fn spec_get(self) -> u32 {
        self.value
    }

    /// The tag with the number `value`; none for 0.
    pub fn new(value: u32) -> (r: Option<TagU32>)
        ensures
            value == 0 ==> r is None,
            value != 0 ==> (r matches Some(tag) && tag.spec_get() == value),
    {
        if value == 0 {
            None
        } else {
            Some(TagU32 { value })
        }
    }

    /// The number: never 0.
    pub fn get(&self) -> (r: u32)
        ensures
            r == self.spec_get(),
            r != 0,
    {
        proof {
            use_type_invariant(self);
        }
        self.value
    }
}

/// The type of a field's value, as the FIX standard names it.
#[derive(Debug, Clone, Copy, PartialEq, Eq, Hash, Structural)]
pub enum FixDatatype {
    Char,
    Boolean,
    Float,
    Amt,
    Price,
    PriceOffset,
    Quantity,
    Percentage,
    Int,
    DayOfMonth,
    Length,
    NumInGroup,
    SeqNum,
    TagNum,
    String,
    Data,
    MonthYear,
    Currency,
    Exchange,
    LocalMktDate,
    MultipleStringValue,
    UtcTimeOnly,
    UtcTimestamp,
    UtcDateOnly,
    Country,
    MultipleCharValue,
    XmlData,
    Language,
}

/// One field of a dictionary.
#[derive(Debug, Clone)]
pub struct FieldDefinition {
    pub tag: u32,
    pub name: String,
    pub data_type: FixDatatype,
    /// The values that the field may have, where the standard lists them.
    pub enums: Option<Vec<String>>,
}

/// One field in the layout of a message.
#[derive(Debug, Clone, Copy, PartialEq, Eq)]
pub struct LayoutItem {
    pub tag: TagU32,
    /// Whether every message of the type has to have the field.
    pub required: bool,
}

/// One type of message of a dictionary.
#[derive(Debug, Clone)]
pub struct MessageDefinition {
    /// The value of `MsgType(35)` in messages of the type.
    pub msg_type: String,
    pub name: String,
    /// The fields of the message.
    pub layout: Vec<LayoutItem>,
}

impl FieldDefinition {
    /// The tag of the field.
    pub fn tag(&self) -> (r: u32)
        ensures
            r == self.tag,
    {
        self.tag
    }

    /// The type of the field's value.
    pub fn data_type(&self) -> (r: FixDatatype)
        ensures
            r == self.data_type,
    {
        self.data_type
    }

    /// The name of the field.
    pub fn name(&self) -> (r: &str)
        ensures
            r@ == self.name@,
    {
        self.name.as_str()
    }

    /// The values that the field may have, where the standard lists them.
    pub fn enums(&self) -> (r: Option<&Vec<String>>)
        ensures
            match self.enums {
                Some(values) => r == Some(&values),
                None => r is None,
            },
    {
        match &self.enums {
            Some(values) => Some(values),
            None => None,
        }
    }

    /// Whether the field counts the entries of a repeating group.
    pub fn is_num_in_group(&self) -> (r: bool)
        ensures
            r == (self.data_type == FixDatatype::NumInGroup),
    {
        self.data_type == FixDatatype::NumInGroup
    }
}

impl MessageDefinition {
    /// The value of `MsgType(35)` in messages of the type.
    pub fn msg_type(&self) -> (r: &str)
        ensures
            r@ == self.msg_type@,
    {
        self.msg_type.as_str()
    }

    /// The fields of the message.
    pub fn layout(&self) -> (r: &Vec<LayoutItem>)
        ensures
            r == &self.layout,
    {
        &self.layout
    }
}

/// A dictionary: the fields and the messages of one version of the
/// protocol.
#[derive(Debug, Clone)]
pub struct Dictionary {
    pub version: String,
    pub fields: Vec<FieldDefinition>,
    pub messages: Vec<MessageDefinition>,
}

/// The place of the last field with `tag` in a list of fields.
pub open spec fn spec_find_field(fields: Seq<FieldDefinition>, tag: u32) -> Option<int>
    decreases fields.len(),
{
    if fields.len() == 0 {
        None
    } else if fields.last().tag == tag {
        Some(fields.len() - 1)
    } else {
        spec_find_field(fields.drop_last(), tag)
    }
}

/// The place of the last message with `msg_type` in a list of messages.
pub open spec fn spec_find_message(messages: Seq<MessageDefinition>, msg_type: Seq<char>) -> Option<
    int,
>
    decreases messages.len(),
{
    if messages.len() == 0 {
        None
    } else if messages.last().msg_type@ == msg_type {
        Some(messages.len() - 1)
    } else {
        spec_find_message(messages.drop_last(), msg_type)
    }
}

/// The field that is found is in the list and has the tag, and its type is
/// the type of the tag.
pub proof fn lemma_find_field(fields: Seq<FieldDefinition>, tag: u32)
    ensures
        spec_find_field(fields, tag) matches Some(i) ==> 0 <= i < fields.len() && fields[i].tag
            == tag && spec_type_of(fields, tag) == Some(fields[i].data_type),
        spec_find_field(fields, tag) is None ==> spec_type_of(fields, tag) is None,
    decreases fields.len(),
{
    if fields.len() > 0 && fields.last().tag != tag {
        lemma_find_field(fields.drop_last(), tag);
    }
}

/// The message that is found is in the list and has the type.
pub proof fn lemma_find_message(messages: Seq<MessageDefinition>, msg_type: Seq<char>)
    ensures
        spec_find_message(messages, msg_type) matches Some(i) ==> 0 <= i < messages.len()
            && messages[i].msg_type@ == msg_type,
    decreases messages.len(),
{
    if messages.len() > 0 && messages.last().msg_type@ != msg_type {
        lemma_find_message(messages.drop_last(), msg_type);
    }
}

/// What type a list of fields gives a tag: that of the last field with the
/// tag, if there is one.
pub open spec fn spec_type_of(fields: Seq<FieldDefinition>, tag: u32) -> Option<FixDatatype>
    decreases fields.len(),
{
    if fields.len() == 0 {
        None
    } else if fields.last().tag == tag {
        Some(fields.last().data_type)
    } else {
        spec_type_of(fields.drop_last(), tag)
    }
}

impl Dictionary {
    /// A dictionary without fields and without messages.
    pub fn new(version: String) -> (r: Dictionary)
        ensures
            r.version == version,
            r.fields@ == Seq::<FieldDefinition>::empty(),
            r.messages@ == Seq::<MessageDefinition>::empty(),
    {
        Dictionary { version, fields: Vec::new(), messages: Vec::new() }
    }

    /// Adds a field whose values are not listed. Where the tag is defined
    /// already, the new definition takes its place.
    pub fn add_field(&mut self, tag: u32, name: String, data_type: FixDatatype)
        ensures
            final(self).version == old(self).version,
            final(self).messages == old(self).messages,
            final(self).fields@ == old(self).fields@.push(
                FieldDefinition { tag, name, data_type, enums: None },
            ),
    {
        self.fields.push(FieldDefinition { tag, name, data_type, enums: None });
    }

    /// Adds a field that may have the values `enums` and no others. Where
    /// the tag is defined already, the new definition takes its place.
    pub fn add_field_with_enums(
        &mut self,
        tag: u32,
        name: String,
        data_type: FixDatatype,
        enums: Vec<String>,
    )
        ensures
            final(self).version == old(self).version,
            final(self).messages == old(self).messages,
            final(self).fields@ == old(self).fields@.push(
                FieldDefinition { tag, name, data_type, enums: Some(enums) },
            ),
    {
        self.fields.push(FieldDefinition { tag, name, data_type, enums: Some(enums) });
    }

    /// Adds a type of message. Where the type is defined already, the new
    /// definition takes its place.
    pub fn add_message(&mut self, msg_type: String, name: String, layout: Vec<LayoutItem>)
        ensures
            final(self).version == old(self).version,
            final(self).fields == old(self).fields,
            final(self).messages@ == old(self).messages@.push(
                MessageDefinition { msg_type, name, layout },
            ),
    {
        self.messages.push(MessageDefinition { msg_type, name, layout });
    }

    /// The types of message, in the order in which they were added.
    pub fn messages(&self) -> (r: &Vec<MessageDefinition>)
        ensures
            r == &self.messages,
    {
        &self.messages
    }

    /// The place of the definition that counts for a type of message: the
    /// last one with the type.
    pub fn message_index(&self, msg_type: &str) -> (r: Option<usize>)
        ensures
            r is Some <==> spec_find_message(self.messages@, msg_type@) is Some,
            r matches Some(i) ==> spec_find_message(self.messages@, msg_type@) == Some(i as int)
                && i < self.messages@.len(),
    {
        let mut i: usize = self.messages.len();
        proof {
            assert(self.messages@.take(i as int) =~= self.messages@);
        }
        while i > 0
            invariant
                i <= self.messages.len(),
                spec_find_message(self.messages@, msg_type@) == spec_find_message(
                    self.messages@.take(i as int),
                    msg_type@,
                ),
            decreases i,
        {
            proof {
                assert(self.messages@.take(i as int).drop_last() =~= self.messages@.take(i - 1));
            }
            i = i - 1;
            if str_eq(self.messages[i].msg_type.as_str(), msg_type) {
                return Some(i);
            }
        }
        None
    }

    /// Looks a type of message up by the value of `MsgType(35)`.
    pub fn message_by_msgtype(&self, msg_type: &str) -> (r: Option<&MessageDefinition>)
        ensures
            match spec_find_message(self.messages@, msg_type@) {
                Some(i) => r == Some(&self.messages@[i]),
                None => r is None,
            },
    {
        match self.message_index(msg_type) {
            Some(i) => Some(&self.messages[i]),
            None => None,
        }
    }

    /// The fields, in the order in which they were added.
    pub fn fields(&self) -> (r: &Vec<FieldDefinition>)
        ensures
            r == &self.fields,
    {
        &self.fields
    }

    /// The type of the field with the tag, if the dictionary has it.
    pub open spec fn type_of(&self, tag: u32) -> Option<FixDatatype> {
        spec_type_of(self.fields@, tag)
    }

    /// Looks a field up by its tag.
    pub fn field_by_tag(&self, tag: u32) -> (r: Option<&FieldDefinition>)
        ensures
            match spec_find_field(self.fields@, tag) {
                Some(i) => r == Some(&self.fields@[i]),
                None => r is None,
            },
            match r {
                Some(f) => f.tag == tag && self.type_of(tag) == Some(f.data_type),
                None => self.type_of(tag) is None,
            },
    {
        proof {
            lemma_find_field(self.fields@, tag);
        }
        let mut i: usize = self.fields.len();
        proof {
            assert(self.fields@.take(i as int) =~= self.fields@);
        }
        while i > 0
            invariant
                i <= self.fields.len(),
                spec_type_of(self.fields@, tag) == spec_type_of(self.fields@.take(i as int), tag),
                spec_find_field(self.fields@, tag) == spec_find_field(
                    self.fields@.take(i as int),
                    tag,
                ),
            decreases i,
        {
            proof {
                assert(self.fields@.take(i as int).drop_last() =~= self.fields@.take(i - 1));
            }
            i = i - 1;
            if self.fields[i].tag == tag {
                return Some(&self.fields[i]);
            }
        }
        None
    }
}

} // verus!
