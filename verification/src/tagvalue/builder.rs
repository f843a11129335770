//! The fields of one decoded message, for access by locator and in wire
//! order.
//!
//! Every value is stored as a buffer of its own: nothing points into the
//! bytes that were decoded.
use super::error::DecodeError;
use super::locator::{lemma_key_injective, spec_key, FieldLocator, FieldLocatorContext, LocatorKey};
use super::state::{spec_context, DecoderState, TrackerModel};
use rustc_hash::FxBuildHasher;
use rustc_hash::FxHashMap;
use smallvec::SmallVec;
use vstd::prelude::*;

verus! {

/// The hasher of the field table.
#[verifier::external_type_specification]
#[verifier::external_body]
pub struct ExFxBuildHasher(FxBuildHasher);

/// What the table holds of one field: its tag, its value, and its number
/// among the fields of the message.
pub type FieldCell = (u32, Vec<u8>, usize);

/// The table of the fields of a message, by the keys of their locators.
pub type FieldTable = FxHashMap<LocatorKey, FieldCell>;

/// `HashMap::insert` on a map with the Fx hasher: the map holds the pair
/// afterwards, in place of any value that the key had.
#[verifier::external_body]
pub(crate) fn table_insert(table: &mut FieldTable, key: LocatorKey, cell: FieldCell)
    ensures
        final(table)@ == old(table)@.insert(key, cell),
{
    table.insert(key, cell);
}

/// `HashMap::get` on a map with the Fx hasher: the value of the key, where
/// the map has one.
#[verifier::external_body]
pub(crate) fn table_get<'a>(table: &'a FieldTable, key: LocatorKey) -> (r: Option<&'a FieldCell>)
    ensures
        r == (if table@.contains_key(key) {
            Some(&table@[key])
        } else {
            None
        }),
{
    table.get(&key)
}

/// `HashMap::remove` on a map with the Fx hasher: the map has no value for
/// the key afterwards, and is unchanged otherwise.
#[verifier::external_body]
pub(crate) fn table_remove(table: &mut FieldTable, key: LocatorKey)
    ensures
        final(table)@ == old(table)@.remove(key),
{
    table.remove(&key);
}

/// The locators of the fields of a message in wire order. Kept in a
/// `SmallVec<[FieldLocator; 32]>`.
#[verifier::external_body]
#[derive(Debug)]
pub struct LocatorList {
    inner: SmallVec<[FieldLocator; 32]>,
}

/// The locators that a list holds, in their order.
pub uninterp spec fn locators_of(list: LocatorList) -> Seq<FieldLocator>;

impl LocatorList {
    /// `SmallVec::new`: a vector without items.
    #[verifier::external_body]
    pub(crate) fn new() -> (r: LocatorList)
        ensures
            locators_of(r) == Seq::<FieldLocator>::empty(),
    {
        LocatorList { inner: SmallVec::new() }
    }

    /// `SmallVec::push`: the item is appended behind the others.
    #[verifier::external_body]
    pub(crate) fn push(&mut self, locator: FieldLocator)
        ensures
            locators_of(*final(self)) == locators_of(*old(self)).push(locator),
    {
        self.inner.push(locator)
    }

    /// `SmallVec::as_slice`: the items in their order.
    #[verifier::external_body]
    pub(crate) fn as_slice(&self) -> (r: &[FieldLocator])
        ensures
            r@ == locators_of(*self),
    {
        self.inner.as_slice()
    }
}

/// One field of a decoded message.
pub struct StoredField {
    pub tag: u32,
    pub value: Seq<u8>,
    /// The number of the field among the fields of the message.
    pub index: usize,
}

/// A decoded message, as plain values.
pub struct MessageRecord {
    /// The bytes of the message as they were on the wire.
    pub bytes: Seq<u8>,
    /// The locator of every field, in wire order.
    pub locators: Seq<FieldLocator>,
    /// The fields by their locators. Of two fields with one locator the
    /// later one is kept.
    pub fields: Map<FieldLocator, StoredField>,
}

impl MessageRecord {
    /// A message without fields.
    pub open spec fn empty(bytes: Seq<u8>) -> MessageRecord {
        MessageRecord { bytes, locators: Seq::empty(), fields: Map::empty() }
    }

    /// The message with one more field at its end.
    pub open spec fn with_field(self, locator: FieldLocator, value: Seq<u8>) -> MessageRecord {
        MessageRecord {
            bytes: self.bytes,
            locators: self.locators.push(locator),
            fields: self.fields.insert(
                locator,
                StoredField { tag: locator.tag, value, index: self.locators.len() as usize },
            ),
        }
    }

    /// The message without the field at `locator`. The other fields keep
    /// their numbers.
    pub open spec fn without_field(self, locator: FieldLocator) -> MessageRecord {
        MessageRecord {
            bytes: self.bytes,
            locators: self.locators,
            fields: self.fields.remove(locator),
        }
    }

    /// The value of the field with `tag` in `context`, if there is one.
    pub open spec fn raw(self, context: FieldLocatorContext, tag: u32) -> Option<Seq<u8>> {
        let locator = FieldLocator { tag, context };
        if tag != 0 && self.fields.contains_key(locator) {
            Some(self.fields[locator].value)
        } else {
            None
        }
    }

    /// Every field that was on the wire can still be looked up.
    pub open spec fn complete(self) -> bool {
        forall|i: int|
            0 <= i < self.locators.len() ==> self.fields.contains_key(#[trigger] self.locators[i])
    }

    /// Every field has the tag of its locator, and no tag is 0.
    pub open spec fn tags_agree(self) -> bool {
        &&& forall|l: FieldLocator| #[trigger]
            self.fields.contains_key(l) ==> self.fields[l].tag == l.tag
        &&& forall|i: int| 0 <= i < self.locators.len() ==> (#[trigger] self.locators[i]).tag != 0
    }
}

/// The fields of a table, by locator.
pub open spec fn spec_fields(table: Map<LocatorKey, FieldCell>) -> Map<FieldLocator, StoredField> {
    Map::new(
        |l: FieldLocator| table.contains_key(spec_key(l)),
        |l: FieldLocator|
            StoredField {
                tag: table[spec_key(l)].0,
                value: table[spec_key(l)].1@,
                index: table[spec_key(l)].2,
            },
    )
}

/// Inserting a cell under the key of a locator sets the field of that
/// locator and no other.
pub proof fn lemma_fields_insert(
    table: Map<LocatorKey, FieldCell>,
    locator: FieldLocator,
    cell: FieldCell,
)
    ensures
        spec_fields(table.insert(spec_key(locator), cell)) == spec_fields(table).insert(
            locator,
            StoredField { tag: cell.0, value: cell.1@, index: cell.2 },
        ),
{
    let a = spec_fields(table.insert(spec_key(locator), cell));
    let b = spec_fields(table).insert(
        locator,
        StoredField { tag: cell.0, value: cell.1@, index: cell.2 },
    );
    assert forall|l: FieldLocator| a.contains_key(l) == b.contains_key(l) && (a.contains_key(l)
        ==> a[l] == b[l]) by {
        if spec_key(l) == spec_key(locator) {
            lemma_key_injective(l, locator);
        }
    }
    assert(a =~= b);
}

/// Removing the key of a locator removes the field of that locator and no
/// other.
pub proof fn lemma_fields_remove(table: Map<LocatorKey, FieldCell>, locator: FieldLocator)
    ensures
        spec_fields(table.remove(spec_key(locator))) == spec_fields(table).remove(locator),
{
    let a = spec_fields(table.remove(spec_key(locator)));
    let b = spec_fields(table).remove(locator);
    assert forall|l: FieldLocator| a.contains_key(l) == b.contains_key(l) && (a.contains_key(l)
        ==> a[l] == b[l]) by {
        if spec_key(l) == spec_key(locator) {
            lemma_key_injective(l, locator);
        }
    }
    assert(a =~= b);
}

/// A decoder at work, as plain values: the group tracker and the message
/// read so far.
pub struct BuilderModel {
    pub state: TrackerModel,
    pub record: MessageRecord,
}

impl BuilderModel {
    /// The state in which the decoding of a message starts.
    pub open spec fn start(bytes: Seq<u8>) -> BuilderModel {
        BuilderModel {
            state: TrackerModel {
                groups: Seq::empty(),
                new_group: None,
                data_field_length: None,
            },
            record: MessageRecord::empty(bytes),
        }
    }

    /// The state after a field was added in the context that the tracker
    /// gives.
    pub open spec fn add_field(self, tag: u32, value: Seq<u8>) -> BuilderModel {
        BuilderModel {
            state: self.state,
            record: self.record.with_field(
                FieldLocator { tag, context: spec_context(self.state.groups) },
                value,
            ),
        }
    }
}

/// The fields of a message as they are decoded, and the state of the
/// decoder between two of them.
#[derive(Debug)]
pub struct MessageBuilder {
    pub state: DecoderState,
    pub fields: FieldTable,
    pub field_locators: LocatorList,
    pub bytes: Vec<u8>,
}

impl View for MessageBuilder {
    type V = BuilderModel;

    open spec fn view(&self) -> BuilderModel {
        BuilderModel {
            state: self.state@,
            record: MessageRecord {
                bytes: self.bytes@,
                locators: locators_of(self.field_locators),
                fields: spec_fields(self.fields@),
            },
        }
    }
}

impl Default for MessageBuilder {
    /// A builder without fields and without bytes.
    fn default() -> (r: MessageBuilder)
        ensures
            r@ == BuilderModel::start(Seq::empty()),
    {
        let r = MessageBuilder {
            state: DecoderState::new(),
            fields: FxHashMap::default(),
            field_locators: LocatorList::new(),
            bytes: Vec::new(),
        };
        assert(spec_fields(r.fields@) =~= Map::<FieldLocator, StoredField>::empty());
        r
    }
}

impl MessageBuilder {
    /// Forgets the message and the state of the decoder.
    pub fn clear(&mut self)
        ensures
            final(self)@ == BuilderModel::start(Seq::empty()),
    {
        *self = MessageBuilder::default();
    }

    /// The number of fields that were added.
    pub fn len(&self) -> (r: usize)
        ensures
            r == self@.record.locators.len(),
    {
        self.field_locators.as_slice().len()
    }

    /// Adds a field in the context that the tracker gives. It becomes the
    /// last field of the message, and the one that its locator finds.
    pub fn add_field(&mut self, tag: u32, field_value: &[u8]) -> (r: Result<(), DecodeError>)
        ensures
            r is Ok,
            final(self)@ == old(self)@.add_field(tag, field_value@),
    {
        let field_locator: FieldLocator = self.state.current_field_locator(tag);
        let i: usize = self.field_locators.as_slice().len();
        let owned_field_value: Vec<u8> = vstd::slice::slice_to_vec(field_value);
        proof {
            lemma_fields_insert(self.fields@, field_locator, (tag, owned_field_value, i));
        }
        table_insert(&mut self.fields, field_locator.key(), (tag, owned_field_value, i));
        self.field_locators.push(field_locator);
        Ok(())
    }

    /// The value of the field at `locator`, if the message has one.
    pub fn get(&self, locator: &FieldLocator) -> (r: Option<&FieldCell>)
        ensures
            match r {
                Some(cell) => self@.record.fields.contains_key(*locator) && (StoredField {
                    tag: cell.0,
                    value: cell.1@,
                    index: cell.2,
                }) == self@.record.fields[*locator],
                None => !self@.record.fields.contains_key(*locator),
            },
    {
        table_get(&self.fields, locator.key())
    }

    /// Takes the field at `locator` out of the message.
    pub fn remove(&mut self, locator: &FieldLocator)
        ensures
            final(self)@ == (BuilderModel {
                state: old(self)@.state,
                record: old(self)@.record.without_field(*locator),
            }),
    {
        proof {
            lemma_fields_remove(self.fields@, *locator);
        }
        table_remove(&mut self.fields, locator.key());
    }
}

} // verus!
