//! The types of FIX values as the ASN.1 codec knows them, and which field
//! has which.
use super::decimal::{is_decimal, spec_is_decimal};
use super::error::{DecodeError, Error};
use super::time::{
    date_parses, datetime_parses, spec_date_parses, spec_datetime_parses, spec_time_parses,
    time_parses,
};
use crate::dict::{
    spec_find_message, Dictionary, FieldDefinition, FixDatatype, LayoutItem, MessageDefinition,
};
use crate::tagvalue::digits::{
    digits_of, parse_signed, parse_unsigned, spec_parse_signed, spec_parse_unsigned,
};
use crate::text::{ascii_chars, unsigned_to_string};
use crate::traits::string_from_utf8;
use rustc_hash::FxHashMap;
use vstd::prelude::*;
use vstd::string::StringExecFns;
use vstd::utf8::{decode_utf8, valid_utf8};

verus! {

/// The type of a field's value.
#[derive(Debug, Clone, Copy, PartialEq, Eq, Structural)]
pub enum FixDataType {
    /// Integer
    Int,
    /// Unsigned integer
    Length,
    /// Numeric identifier
    NumInGroup,
    /// Sequence number
    SeqNum,
    /// Tag number
    TagNum,
    /// Day of month
    DayOfMonth,
    /// Float
    Float,
    /// Quantity
    Qty,
    /// Price
    Price,
    /// Price offset
    PriceOffset,
    /// Amount
    Amt,
    /// Percentage
    Percentage,
    /// Character
    Char,
    /// Boolean (Y/N)
    Boolean,
    /// String
    String,
    /// Multiple value string
    MultipleValueString,
    /// Multiple char value
    MultipleCharValue,
    /// Currency
    Currency,
    /// Exchange
    Exchange,
    /// UTC timestamp
    UtcTimestamp,
    /// UTC date only
    UtcDateOnly,
    /// UTC time only
    UtcTimeOnly,
    /// Local market date
    LocalMktDate,
    /// TZ time only
    TzTimeOnly,
    /// TZ timestamp
    TzTimestamp,
    /// Binary data
    Data,
    /// XML data
    XmlData,
    /// Language
    Language,
    /// Pattern
    Pattern,
    /// Tenor
    Tenor,
}

/// What the schema knows of a field.
#[derive(Debug, Clone, Copy, PartialEq, Eq, Structural)]
pub struct FieldTypeInfo {
    /// The type of the field's value.
    pub fix_type: FixDataType,
    /// Whether the field belongs to the header of a message.
    pub in_header: bool,
    /// Whether the field belongs to the trailer of a message.
    pub in_trailer: bool,
}

/// The type that the codec gives values of a type of the dictionary. A
/// type that the codec does not tell apart counts as text.
pub open spec fn spec_schema_type(dict_type: FixDatatype) -> FixDataType {
    match dict_type {
        FixDatatype::Int => FixDataType::Int,
        FixDatatype::Length => FixDataType::Length,
        FixDatatype::NumInGroup => FixDataType::NumInGroup,
        FixDatatype::SeqNum => FixDataType::SeqNum,
        FixDatatype::TagNum => FixDataType::TagNum,
        FixDatatype::DayOfMonth => FixDataType::DayOfMonth,
        FixDatatype::Float => FixDataType::Float,
        FixDatatype::Quantity => FixDataType::Qty,
        FixDatatype::Price => FixDataType::Price,
        FixDatatype::PriceOffset => FixDataType::PriceOffset,
        FixDatatype::Amt => FixDataType::Amt,
        FixDatatype::Percentage => FixDataType::Percentage,
        FixDatatype::Char => FixDataType::Char,
        FixDatatype::Boolean => FixDataType::Boolean,
        FixDatatype::String => FixDataType::String,
        FixDatatype::MultipleCharValue => FixDataType::MultipleCharValue,
        FixDatatype::MultipleStringValue => FixDataType::MultipleValueString,
        FixDatatype::Currency => FixDataType::Currency,
        FixDatatype::Exchange => FixDataType::Exchange,
        FixDatatype::UtcTimestamp => FixDataType::UtcTimestamp,
        FixDatatype::UtcDateOnly => FixDataType::UtcDateOnly,
        FixDatatype::UtcTimeOnly => FixDataType::UtcTimeOnly,
        FixDatatype::LocalMktDate => FixDataType::LocalMktDate,
        FixDatatype::Data => FixDataType::Data,
        FixDatatype::XmlData => FixDataType::XmlData,
        FixDatatype::Language => FixDataType::Language,
        FixDatatype::MonthYear => FixDataType::String,
        FixDatatype::Country => FixDataType::String,
    }
}

/// Whether `tag` is one of the tags of the standard header.
pub open spec fn spec_is_header_tag(tag: u32) -> bool {
    tag == 8 || tag == 9 || tag == 35 || tag == 34 || tag == 49 || tag == 56 || tag == 52 || tag
        == 43 || tag == 122 || tag == 212 || tag == 213 || tag == 347 || tag == 369 || tag == 627
}

/// Whether `tag` is one of the tags of the standard trailer.
pub open spec fn spec_is_trailer_tag(tag: u32) -> bool {
    tag == 10 || tag == 89 || tag == 93
}

/// What the schema knows of a field of the dictionary.
pub open spec fn spec_field_info(field: FieldDefinition) -> FieldTypeInfo {
    FieldTypeInfo {
        fix_type: spec_schema_type(field.data_type),
        in_header: spec_is_header_tag(field.tag),
        in_trailer: spec_is_trailer_tag(field.tag),
    }
}

/// The tag under which a schema keeps a field: the lower 16 bits of the
/// field's tag.
pub open spec fn spec_short_tag(tag: u32) -> u16 {
    (tag % 0x10000) as u16
}

/// The fields of a schema by tag: those of the dictionary, the later of
/// two fields with one tag in place of the earlier.
pub open spec fn spec_field_types(fields: Seq<FieldDefinition>) -> Map<u16, FieldTypeInfo>
    decreases fields.len(),
{
    if fields.len() == 0 {
        Map::empty()
    } else {
        spec_field_types(fields.drop_last()).insert(
            spec_short_tag(fields.last().tag),
            spec_field_info(fields.last()),
        )
    }
}

/// The lower 16 bits of a tag.
pub fn short_tag(tag: u32) -> (r: u16)
    ensures
        r == spec_short_tag(tag),
{
    (tag % 0x10000) as u16
}

/// The fields of a layout up to place `n` that are required, or those
/// that are not, by their tags.
pub open spec fn spec_layout_part(layout: Seq<LayoutItem>, n: int, required: bool) -> Seq<u16>
    decreases n,
{
    if n <= 0 {
        Seq::empty()
    } else if layout[n - 1].required == required {
        spec_layout_part(layout, n - 1, required).push(
            spec_short_tag(layout[n - 1].tag.spec_get()),
        )
    } else {
        spec_layout_part(layout, n - 1, required)
    }
}

/// What a schema keeps of a repeating group.
#[derive(Debug, Clone, PartialEq, Eq)]
pub struct GroupSchema {
    /// The tag of the count of the group.
    pub count_tag: u16,
    /// The tag that opens every entry.
    pub first_field: u16,
    /// The tags of the fields of an entry.
    pub fields: Vec<u16>,
}

/// What a schema keeps of a type of message.
#[derive(Debug, Clone, PartialEq, Eq)]
pub struct MessageSchema {
    /// The value of `MsgType(35)`.
    pub msg_type: String,
    /// The tags of the fields that every message of the type has.
    pub required_fields: Vec<u16>,
    /// The tags of the fields that a message of the type may have.
    pub optional_fields: Vec<u16>,
    /// The repeating groups of the type.
    pub groups: Vec<GroupSchema>,
}

/// Whether a schema of a message is the schema of a definition: the same
/// type, the required fields of the layout and its other fields, each in
/// the order of the layout, and no groups.
pub open spec fn spec_is_schema_of(schema: MessageSchema, definition: MessageDefinition) -> bool {
    &&& schema.msg_type@ == definition.msg_type@
    &&& schema.required_fields@ == spec_layout_part(
        definition.layout@,
        definition.layout@.len() as int,
        true,
    )
    &&& schema.optional_fields@ == spec_layout_part(
        definition.layout@,
        definition.layout@.len() as int,
        false,
    )
    &&& schema.groups@.len() == 0
}

/// Whether schemas are those of definitions, one for one.
pub open spec fn spec_are_schemas_of(
    schemas: Seq<MessageSchema>,
    definitions: Seq<MessageDefinition>,
) -> bool {
    &&& schemas.len() == definitions.len()
    &&& forall|i: int|
        0 <= i < schemas.len() ==> spec_is_schema_of(#[trigger] schemas[i], definitions[i])
}

/// The table of the fields of a schema.
pub type FieldTypeTable = FxHashMap<u16, FieldTypeInfo>;

/// `HashMap::insert` on a map with the Fx hasher: the map holds the pair
/// afterwards, in place of any value that the key had.
#[verifier::external_body]
pub(crate) fn types_insert(table: &mut FieldTypeTable, tag: u16, info: FieldTypeInfo)
    ensures
        final(table)@ == old(table)@.insert(tag, info),
{
    table.insert(tag, info);
}

/// `HashMap::get` on a map with the Fx hasher: the value of the key, where
/// the map has one.
#[verifier::external_body]
pub(crate) fn types_get<'a>(table: &'a FieldTypeTable, tag: u16) -> (r: Option<&'a FieldTypeInfo>)
    ensures
        r == (if table@.contains_key(tag) {
            Some(&table@[tag])
        } else {
            None
        }),
{
    table.get(&tag)
}

/// `HashMap::iter` on a map with the Fx hasher: every pair of a key and
/// its value once, in an order that the map chooses.
#[verifier::external_body]
pub(crate) fn types_entries(table: &FieldTypeTable) -> (r: Vec<(u16, FieldTypeInfo)>)
    ensures
        r@.len() == table@.len(),
        forall|i: int|
            0 <= i < r@.len() ==> table@.contains_key((#[trigger] r@[i]).0) && table@[r@[i].0]
                == r@[i].1,
        forall|i: int, j: int| 0 <= i < j < r@.len() ==> r@[i].0 != r@[j].0,
{
    table.iter().map(|(tag, info)| (*tag, *info)).collect()
}

/// `HashMap::len` on a map with the Fx hasher: the number of keys.
#[verifier::external_body]
pub(crate) fn types_len(table: &FieldTypeTable) -> (r: usize)
    ensures
        r == table@.len(),
{
    table.len()
}

/// A text without the white space at its ends.
pub uninterp spec fn spec_trim(s: Seq<char>) -> Seq<char>;

/// `str::trim`: the text without the white space at its ends. Of a text
/// without characters nothing is left.
#[verifier::external_body]
pub(crate) fn str_trim(s: &str) -> (r: &str)
    ensures
        r@ == spec_trim(s@),
        s@.len() == 0 ==> r@.len() == 0,
{
    s.trim()
}

/// Whether a text is empty once the white space at its ends is cut off.
pub open spec fn spec_is_blank(s: Seq<char>) -> bool {
    spec_trim(s).len() == 0
}

/// Tests whether a text is empty once the white space at its ends is cut
/// off.
pub fn is_blank(s: &str) -> (r: bool)
    ensures
        r == spec_is_blank(s@),
{
    str_trim(s).is_empty()
}

/// What is wrong with a text as the value of a field with `tag` and of a
/// type, if anything: the start of the complaint, and whether the text
/// itself follows it.
pub open spec fn spec_type_complaint(fix_type: FixDataType, value: Seq<u8>) -> Option<
    (Seq<char>, Seq<char>),
> {
    let s = decode_utf8(value);
    match fix_type {
        FixDataType::Int => if spec_parse_signed(value, i64::MIN as int, i64::MAX as int) is Some {
            None
        } else {
            Some(("Invalid integer value for tag "@, ": "@ + s))
        },
        FixDataType::Length
        | FixDataType::NumInGroup
        | FixDataType::SeqNum
        | FixDataType::TagNum
        | FixDataType::DayOfMonth => if spec_parse_unsigned(value, u64::MAX as nat) is Some {
            None
        } else {
            Some(("Invalid unsigned integer value for tag "@, ": "@ + s))
        },
        FixDataType::Float
        | FixDataType::Qty
        | FixDataType::Price
        | FixDataType::PriceOffset
        | FixDataType::Amt
        | FixDataType::Percentage => if spec_is_decimal(value) {
            None
        } else {
            Some(("Invalid decimal value for tag "@, ": "@ + s))
        },
        FixDataType::Char => if value.len() == 1 {
            None
        } else {
            Some(("Char field tag "@, " must be exactly 1 character, got: "@ + s))
        },
        FixDataType::Boolean => if value == seq![0x59u8] || value == seq![0x4eu8] {
            None
        } else {
            Some(("Boolean field tag "@, " must be Y or N, got: "@ + s))
        },
        FixDataType::UtcTimestamp => if spec_datetime_parses(s, "%Y%m%d-%H:%M:%S%.f"@) {
            None
        } else {
            Some(("Invalid UTC timestamp format for tag "@, ": "@ + s))
        },
        FixDataType::UtcDateOnly => if spec_date_parses(s, "%Y%m%d"@) {
            None
        } else {
            Some(("Invalid UTC date format for tag "@, ": "@ + s))
        },
        FixDataType::UtcTimeOnly => if spec_time_parses(s, "%H:%M:%S%.f"@) {
            None
        } else {
            Some(("Invalid UTC time format for tag "@, ": "@ + s))
        },
        FixDataType::LocalMktDate => if spec_date_parses(s, "%Y%m%d"@) {
            None
        } else {
            Some(("Invalid local market date format for tag "@, ": "@ + s))
        },
        FixDataType::TzTimeOnly | FixDataType::TzTimestamp => if spec_is_blank(s) {
            Some(("Timezone timestamp/time for tag "@, " cannot be empty"@))
        } else {
            None
        },
        _ => None,
    }
}

/// What mapping the bytes of the field with `tag` gives.
pub enum MappedView {
    /// The text of the value.
    Text(Seq<char>),
    /// The complaint of the schema.
    Complaint(Seq<char>),
    /// The bytes are no UTF-8.
    InvalidUtf8,
}

/// What mapping the bytes of the field with `tag` gives: the text of the
/// value where the schema knows the field and the text is a value of the
/// field's type.
pub open spec fn spec_map_field_type(types: Map<u16, FieldTypeInfo>, tag: u16, value: Seq<u8>) -> MappedView {
    let number = ascii_chars(digits_of(tag as nat));
    if !types.contains_key(tag) {
        MappedView::Complaint("Unknown field tag: "@ + number)
    } else if !valid_utf8(value) {
        MappedView::InvalidUtf8
    } else {
        match spec_type_complaint(types[tag].fix_type, value) {
            Some((start, end)) => MappedView::Complaint(start + number + end),
            None => MappedView::Text(decode_utf8(value)),
        }
    }
}

/// The answer of the schema to a value: the text, or the complaint that
/// starts with `start`, names the tag and ends with `end`.
pub fn type_answer(s: String, tag: u16, fine: bool, start: &str, end: &str, with_text: bool) -> (r:
    Result<String, Error>)
    ensures
        fine ==> (r matches Ok(text) && text@ == s@),
        !fine ==> (r matches Err(Error::Schema(text)) && text@ == start@ + ascii_chars(
            digits_of(tag as nat),
        ) + (if with_text {
            end@ + s@
        } else {
            end@
        })),
{
    if fine {
        Ok(s)
    } else {
        let head: String = String::from_str(start).concat(
            unsigned_to_string(tag as u64).as_str(),
        ).concat(end);
        if with_text {
            let r = head.concat(s.as_str());
            assert(r@ =~= start@ + ascii_chars(digits_of(tag as nat)) + (end@ + s@));
            Err(Error::Schema(r))
        } else {
            Err(Error::Schema(head))
        }
    }
}

/// Which field has which type and which message has which fields, for
/// the ASN.1 codec.
#[derive(Debug)]
pub struct Schema {
    dictionary: Dictionary,
    message_schemas: Vec<MessageSchema>,
    field_types: FieldTypeTable,
}

impl Schema {
    /// There is a schema for every type of message of the dictionary.
    #[verifier::type_invariant]
    spec fn in_step(self) -> bool {
        spec_are_schemas_of(self.message_schemas@, self.dictionary.messages@)
    }

    /// The dictionary that the schema was made of.
    pub closed spec fn spec_dictionary(&self) -> Dictionary {
        self.dictionary
    }

    /// The fields of the schema by tag.
    pub closed spec fn types(&self) -> Map<u16, FieldTypeInfo> {
        self.field_types@
    }

    /// The schema of a dictionary.
    pub fn new(dictionary: Dictionary) -> (r: Schema)
        ensures
            r.spec_dictionary() == dictionary,
            r.types() == spec_field_types(dictionary.fields@),
    {
        let field_types: FieldTypeTable = Schema::build_field_types(&dictionary);
        let message_schemas: Vec<MessageSchema> = Schema::build_message_schemas(&dictionary);
        Schema { dictionary, message_schemas, field_types }
    }

    /// The dictionary that the schema was made of.
    pub fn dictionary(&self) -> (r: &Dictionary)
        ensures
            *r == self.spec_dictionary(),
    {
        &self.dictionary
    }

    /// The table of the fields of a dictionary.
    fn build_field_types(dictionary: &Dictionary) -> (r: FieldTypeTable)
        ensures
            r@ == spec_field_types(dictionary.fields@),
    {
        let mut field_types: FieldTypeTable = FxHashMap::default();
        let mut i: usize = 0;
        proof {
            assert(dictionary.fields@.take(0) =~= Seq::<FieldDefinition>::empty());
        }
        while i < dictionary.fields.len()
            invariant
                i <= dictionary.fields.len(),
                field_types@ == spec_field_types(dictionary.fields@.take(i as int)),
            decreases dictionary.fields.len() - i,
        {
            let tag: u32 = dictionary.fields[i].tag;
            let fix_type: FixDataType = Schema::map_dictionary_type_to_schema_type(
                dictionary.fields[i].data_type,
            );
            let (in_header, in_trailer) = Schema::determine_field_location(tag);
            proof {
                assert(dictionary.fields@.take(i + 1).drop_last() =~= dictionary.fields@.take(
                    i as int,
                ));
                assert(dictionary.fields@.take(i + 1).last() == dictionary.fields@[i as int]);
            }
            types_insert(
                &mut field_types,
                short_tag(tag),
                FieldTypeInfo { fix_type, in_header, in_trailer },
            );
            i = i + 1;
        }
        proof {
            assert(dictionary.fields@.take(i as int) =~= dictionary.fields@);
        }
        field_types
    }

    /// The schemas of the types of message of a dictionary.
    fn build_message_schemas(dictionary: &Dictionary) -> (r: Vec<MessageSchema>)
        ensures
            spec_are_schemas_of(r@, dictionary.messages@),
    {
        let mut schemas: Vec<MessageSchema> = Vec::new();
        let mut i: usize = 0;
        while i < dictionary.messages.len()
            invariant
                i <= dictionary.messages.len(),
                schemas@.len() == i,
                forall|k: int|
                    0 <= k < i ==> spec_is_schema_of(#[trigger] schemas@[k], dictionary.messages@[k]),
            decreases dictionary.messages.len() - i,
        {
            let definition: &MessageDefinition = &dictionary.messages[i];
            let mut required_fields: Vec<u16> = Vec::new();
            let mut optional_fields: Vec<u16> = Vec::new();
            Schema::process_message_layout(
                definition.layout(),
                &mut required_fields,
                &mut optional_fields,
            );
            let schema = MessageSchema {
                msg_type: definition.msg_type.clone(),
                required_fields,
                optional_fields,
                groups: Vec::new(),
            };
            schemas.push(schema);
            i = i + 1;
        }
        schemas
    }

    /// Sorts the fields of a layout into those that are required and
    /// those that are not.
    fn process_message_layout(
        layout: &Vec<LayoutItem>,
        required_fields: &mut Vec<u16>,
        optional_fields: &mut Vec<u16>,
    )
        requires
            old(required_fields)@.len() == 0,
            old(optional_fields)@.len() == 0,
        ensures
            final(required_fields)@ == spec_layout_part(layout@, layout@.len() as int, true),
            final(optional_fields)@ == spec_layout_part(layout@, layout@.len() as int, false),
    {
        let mut i: usize = 0;
        while i < layout.len()
            invariant
                i <= layout.len(),
                required_fields@ =~= spec_layout_part(layout@, i as int, true),
                optional_fields@ =~= spec_layout_part(layout@, i as int, false),
            decreases layout.len() - i,
        {
            let tag: u16 = short_tag(layout[i].tag.get());
            if layout[i].required {
                required_fields.push(tag);
            } else {
                optional_fields.push(tag);
            }
            i = i + 1;
        }
    }

    /// What the schema keeps of the type of message `msg_type`: the schema
    /// of the definition that counts for the type in the dictionary.
    pub fn get_message_schema(&self, msg_type: &str) -> (r: Option<&MessageSchema>)
        ensures
            match spec_find_message(self.spec_dictionary().messages@, msg_type@) {
                Some(i) => r matches Some(schema) && spec_is_schema_of(
                    *schema,
                    self.spec_dictionary().messages@[i],
                ),
                None => r is None,
            },
    {
        proof {
            use_type_invariant(self);
        }
        match self.dictionary.message_index(msg_type) {
            Some(i) => Some(&self.message_schemas[i]),
            None => None,
        }
    }

    /// The number of definitions of types of message that the schema
    /// keeps.
    pub fn message_count(&self) -> (r: usize)
        ensures
            r == self.spec_dictionary().messages@.len(),
    {
        proof {
            use_type_invariant(self);
        }
        self.message_schemas.len()
    }

    /// The fields that the schema knows, each one once, in no order to
    /// rely on.
    pub fn field_types(&self) -> (r: Vec<(u16, FieldTypeInfo)>)
        ensures
            r@.len() == self.types().len(),
            forall|i: int|
                0 <= i < r@.len() ==> self.types().contains_key((#[trigger] r@[i]).0)
                    && self.types()[r@[i].0] == r@[i].1,
            forall|i: int, j: int| 0 <= i < j < r@.len() ==> r@[i].0 != r@[j].0,
    {
        types_entries(&self.field_types)
    }

    /// The type that the codec gives values of a type of the dictionary.
    pub fn map_dictionary_type_to_schema_type(dict_type: FixDatatype) -> (r: FixDataType)
        ensures
            r == spec_schema_type(dict_type),
    {
        match dict_type {
            FixDatatype::Int => FixDataType::Int,
            FixDatatype::Length => FixDataType::Length,
            FixDatatype::NumInGroup => FixDataType::NumInGroup,
            FixDatatype::SeqNum => FixDataType::SeqNum,
            FixDatatype::TagNum => FixDataType::TagNum,
            FixDatatype::DayOfMonth => FixDataType::DayOfMonth,
            FixDatatype::Float => FixDataType::Float,
            FixDatatype::Quantity => FixDataType::Qty,
            FixDatatype::Price => FixDataType::Price,
            FixDatatype::PriceOffset => FixDataType::PriceOffset,
            FixDatatype::Amt => FixDataType::Amt,
            FixDatatype::Percentage => FixDataType::Percentage,
            FixDatatype::Char => FixDataType::Char,
            FixDatatype::Boolean => FixDataType::Boolean,
            FixDatatype::String => FixDataType::String,
            FixDatatype::MultipleCharValue => FixDataType::MultipleCharValue,
            FixDatatype::MultipleStringValue => FixDataType::MultipleValueString,
            FixDatatype::Currency => FixDataType::Currency,
            FixDatatype::Exchange => FixDataType::Exchange,
            FixDatatype::UtcTimestamp => FixDataType::UtcTimestamp,
            FixDatatype::UtcDateOnly => FixDataType::UtcDateOnly,
            FixDatatype::UtcTimeOnly => FixDataType::UtcTimeOnly,
            FixDatatype::LocalMktDate => FixDataType::LocalMktDate,
            FixDatatype::Data => FixDataType::Data,
            FixDatatype::XmlData => FixDataType::XmlData,
            FixDatatype::Language => FixDataType::Language,
            // Types that the codec does not tell apart count as text.
            FixDatatype::MonthYear => FixDataType::String,
            FixDatatype::Country => FixDataType::String,
        }
    }

    /// The same as `map_dictionary_type_to_schema_type`, as a method.
    pub fn map_dictionary_type_to_schema_type_public(&self, dict_type: FixDatatype) -> (r:
        FixDataType)
        ensures
            r == spec_schema_type(dict_type),
    {
        Schema::map_dictionary_type_to_schema_type(dict_type)
    }

    /// Whether a field belongs to the standard header, and whether to the
    /// standard trailer.
    pub fn determine_field_location(tag: u32) -> (r: (bool, bool))
        ensures
            r.0 == spec_is_header_tag(tag),
            r.1 == spec_is_trailer_tag(tag),
    {
        let in_header: bool = tag == 8 || tag == 9 || tag == 35 || tag == 34 || tag == 49 || tag
            == 56 || tag == 52 || tag == 43 || tag == 122 || tag == 212 || tag == 213 || tag == 347
            || tag == 369 || tag == 627;
        let in_trailer: bool = tag == 10 || tag == 89 || tag == 93;
        (in_header, in_trailer)
    }

    /// What the schema knows of the field with `tag`.
    pub fn get_field_type(&self, tag: u16) -> (r: Option<&FieldTypeInfo>)
        ensures
            match r {
                Some(info) => self.types().contains_key(tag) && *info == self.types()[tag],
                None => !self.types().contains_key(tag),
            },
    {
        types_get(&self.field_types, tag)
    }

    /// The number of fields that the schema knows.
    pub fn field_count(&self) -> (r: usize)
        ensures
            r == self.types().len(),
    {
        types_len(&self.field_types)
    }

    /// Checks the bytes of the field with `tag` against the type that the
    /// schema gives the field, and hands them back as text.
    pub fn map_field_type(&self, tag: u16, value: &[u8]) -> (r: Result<String, Error>)
        ensures
            match spec_map_field_type(self.types(), tag, value@) {
                MappedView::Text(text) => r matches Ok(got) && got@ == text,
                MappedView::Complaint(text) => r matches Err(Error::Schema(got)) && got@ == text,
                MappedView::InvalidUtf8 => r matches Err(
                    Error::Decode(DecodeError::InvalidUtf8 { offset }),
                ) && offset == 0,
            },
    {
        let field_info: &FieldTypeInfo = match self.get_field_type(tag) {
            Some(info) => info,
            None => {
                return Err(
                    Error::Schema(
                        String::from_str("Unknown field tag: ").concat(
                            unsigned_to_string(tag as u64).as_str(),
                        ),
                    ),
                );
            },
        };
        // Everything that follows works on text.
        let s: String = match string_from_utf8(value) {
            Some(s) => s,
            None => {
                return Err(Error::Decode(DecodeError::InvalidUtf8 { offset: 0 }));
            },
        };
        proof {
            if value@.len() == 1 {
                assert(value@ =~= seq![value@[0]]);
            }
        }
        match field_info.fix_type {
            FixDataType::Int => {
                let fine: bool = parse_signed(value, i64::MIN, i64::MAX).is_some();
                type_answer(s, tag, fine, "Invalid integer value for tag ", ": ", true)
            },
            FixDataType::Length
            | FixDataType::NumInGroup
            | FixDataType::SeqNum
            | FixDataType::TagNum
            | FixDataType::DayOfMonth => {
                let fine: bool = parse_unsigned(value, u64::MAX).is_some();
                type_answer(s, tag, fine, "Invalid unsigned integer value for tag ", ": ", true)
            },
            FixDataType::Float
            | FixDataType::Qty
            | FixDataType::Price
            | FixDataType::PriceOffset
            | FixDataType::Amt
            | FixDataType::Percentage => {
                let fine: bool = is_decimal(value);
                type_answer(s, tag, fine, "Invalid decimal value for tag ", ": ", true)
            },
            FixDataType::Char => {
                let fine: bool = value.len() == 1;
                type_answer(
                    s,
                    tag,
                    fine,
                    "Char field tag ",
                    " must be exactly 1 character, got: ",
                    true,
                )
            },
            FixDataType::Boolean => {
                let fine: bool = value.len() == 1 && (value[0] == 0x59 || value[0] == 0x4e);
                type_answer(s, tag, fine, "Boolean field tag ", " must be Y or N, got: ", true)
            },
            FixDataType::String
            | FixDataType::MultipleValueString
            | FixDataType::MultipleCharValue
            | FixDataType::Currency
            | FixDataType::Exchange
            | FixDataType::Language
            | FixDataType::Pattern
            | FixDataType::Tenor => {
                // Any text is a value of these types.
                Ok(s)
            },
            FixDataType::UtcTimestamp => {
                let fine: bool = Schema::is_valid_utc_timestamp(s.as_str());
                type_answer(s, tag, fine, "Invalid UTC timestamp format for tag ", ": ", true)
            },
            FixDataType::UtcDateOnly => {
                let fine: bool = Schema::is_valid_utc_date(s.as_str());
                type_answer(s, tag, fine, "Invalid UTC date format for tag ", ": ", true)
            },
            FixDataType::UtcTimeOnly => {
                let fine: bool = Schema::is_valid_utc_time(s.as_str());
                type_answer(s, tag, fine, "Invalid UTC time format for tag ", ": ", true)
            },
            FixDataType::LocalMktDate => {
                let fine: bool = Schema::is_valid_utc_date(s.as_str());
                type_answer(s, tag, fine, "Invalid local market date format for tag ", ": ", true)
            },
            FixDataType::TzTimeOnly | FixDataType::TzTimestamp => {
                // Times with a zone are taken as they are, unless there is
                // nothing to take.
                let fine: bool = !is_blank(s.as_str());
                type_answer(
                    s,
                    tag,
                    fine,
                    "Timezone timestamp/time for tag ",
                    " cannot be empty",
                    false,
                )
            },
            FixDataType::Data | FixDataType::XmlData => {
                // Data that is text is handed back as it is.
                Ok(s)
            },
        }
    }

    /// Whether a text is a UTC timestamp, `YYYYMMDD-HH:MM:SS` with or
    /// without a fraction of a second.
    pub fn is_valid_utc_timestamp(s: &str) -> (r: bool)
        ensures
            r == spec_datetime_parses(s@, "%Y%m%d-%H:%M:%S%.f"@),
    {
        datetime_parses(s, "%Y%m%d-%H:%M:%S%.f")
    }

    /// Whether a text is a UTC date, `YYYYMMDD`.
    pub fn is_valid_utc_date(s: &str) -> (r: bool)
        ensures
            r == spec_date_parses(s@, "%Y%m%d"@),
    {
        date_parses(s, "%Y%m%d")
    }

    /// Whether a text is a UTC time of day, `HH:MM:SS` with or without a
    /// fraction of a second.
    pub fn is_valid_utc_time(s: &str) -> (r: bool)
        ensures
            r == spec_time_parses(s@, "%H:%M:%S%.f"@),
    {
        time_parses(s, "%H:%M:%S%.f")
    }
}

} // verus!
