//! Which repeating group a field belongs to.
//!
//! The wire format does not mark where a group's entries start and end. The
//! decoder learns it as it goes: the field behind a count opens the first
//! entry, and every later occurrence of that field's tag opens the next one,
//! until the count is used up.
//!
//! A group is left when its last entry is being read and a field comes that
//! is known to lie outside it: one with the tag that opens its entries, or
//! one with the tag that opens the entries of a group around it. The field
//! is then offered to the group around, and belongs to the root where there
//! is none. Every other field belongs to the entry that is being read. So
//! groups may lie in groups, no field is ever given an entry whose number
//! the count does not allow, and a count of 0 opens no group at all.
use super::digits::{parse_unsigned, spec_parse_unsigned};
use super::error::{constraint_error, ConstraintViolation, DecodeError};
use super::locator::{FieldLocator, FieldLocatorContext};
use smallvec::SmallVec;
use vstd::prelude::*;

verus! {

/// A repeating group whose entries are being read.
#[derive(Debug, Clone, Copy, PartialEq, Eq, Structural)]
pub struct DecoderGroupState {
    /// The tag that opens every entry.
    pub first_tag_of_every_group_entry: u32,
    /// The number of entries that the count announced.
    pub num_entries: usize,
    /// The entry that is being read, counted from 0.
    pub current_entry_i: usize,
    /// The number of the count field among the fields of the message.
    pub index_of_group_tag: usize,
}

/// A count was read, and the tag that opens its entries is not known yet.
#[derive(Debug, Clone, Copy, PartialEq, Eq, Structural)]
pub struct DecoderStateNewGroup {
    /// The tag of the count field.
    pub tag: u32,
    /// The number of the count field among the fields of the message.
    pub index_of_group_tag: usize,
    /// The number of entries that the count announced: never 0.
    pub num_entries: usize,
}

/// The open groups, the innermost one last. Kept in a
/// `SmallVec<[DecoderGroupState; 8]>`.
#[verifier::external_body]
#[derive(Debug)]
pub struct GroupStack {
    inner: SmallVec<[DecoderGroupState; 8]>,
}

/// The groups that a stack holds, the innermost one last.
pub uninterp spec fn groups_of(stack: GroupStack) -> Seq<DecoderGroupState>;

impl GroupStack {
    /// `SmallVec::new`: a vector without items.
    #[verifier::external_body]
    pub(crate) fn new() -> (r: GroupStack)
        ensures
            groups_of(r) == Seq::<DecoderGroupState>::empty(),
    {
        GroupStack { inner: SmallVec::new() }
    }

    /// `SmallVec::push`: the item is appended behind the others.
    #[verifier::external_body]
    pub(crate) fn push(&mut self, group: DecoderGroupState)
        ensures
            groups_of(*final(self)) == groups_of(*old(self)).push(group),
    {
        self.inner.push(group)
    }

    /// `SmallVec::pop`: the last item is taken off and returned, or `None`
    /// where there is no item.
    #[verifier::external_body]
    pub(crate) fn pop(&mut self) -> (r: Option<DecoderGroupState>)
        ensures
            groups_of(*old(self)).len() == 0 ==> r is None && groups_of(*final(self)) == groups_of(
                *old(self),
            ),
            groups_of(*old(self)).len() > 0 ==> r == Some(groups_of(*old(self)).last())
                && groups_of(*final(self)) == groups_of(*old(self)).drop_last(),
    {
        self.inner.pop()
    }

    /// `SmallVec::as_slice`: the items in their order.
    #[verifier::external_body]
    pub(crate) fn as_slice(&self) -> (r: &[DecoderGroupState])
        ensures
            r@ == groups_of(*self),
    {
        self.inner.as_slice()
    }
}

/// The group tracker, as plain values.
pub struct TrackerModel {
    pub groups: Seq<DecoderGroupState>,
    pub new_group: Option<DecoderStateNewGroup>,
    pub data_field_length: Option<usize>,
}

/// A group with the next entry opened.
pub open spec fn spec_next_entry(g: DecoderGroupState) -> DecoderGroupState {
    DecoderGroupState {
        first_tag_of_every_group_entry: g.first_tag_of_every_group_entry,
        num_entries: g.num_entries,
        current_entry_i: (g.current_entry_i + 1) as usize,
        index_of_group_tag: g.index_of_group_tag,
    }
}

/// Whether `tag` opens the entries of one of `groups`.
pub open spec fn spec_opens_entries(groups: Seq<DecoderGroupState>, tag: u32) -> bool {
    exists|i: int|
        0 <= i < groups.len() && (#[trigger] groups[i]).first_tag_of_every_group_entry == tag
}

/// Whether a group reads the last entry that its count allows.
pub open spec fn spec_on_last_entry(g: DecoderGroupState) -> bool {
    g.current_entry_i + 1 >= g.num_entries
}

/// The open groups after a field with `tag` arrived.
///
/// Where the tag opens the entries of the innermost group, that group
/// moves to its next entry; where it reads its last entry already, the
/// group is closed and the one around it is asked in turn. The same
/// happens where the innermost group reads its last entry and the tag
/// opens the entries of a group around it. Any other tag belongs to the
/// entry that is being read.
pub open spec fn spec_settle(groups: Seq<DecoderGroupState>, tag: u32) -> Seq<DecoderGroupState>
    decreases groups.len(),
{
    if groups.len() == 0 {
        groups
    } else {
        let top = groups.last();
        if tag == top.first_tag_of_every_group_entry {
            if spec_on_last_entry(top) {
                spec_settle(groups.drop_last(), tag)
            } else {
                groups.drop_last().push(spec_next_entry(top))
            }
        } else if spec_on_last_entry(top) && spec_opens_entries(groups.drop_last(), tag) {
            spec_settle(groups.drop_last(), tag)
        } else {
            groups
        }
    }
}

/// The tracker after a field with `tag` arrived, before the field's own
/// value is looked at. Behind a count the field opens the first entry of a
/// new group.
pub open spec fn spec_enter(t: TrackerModel, tag: u32) -> TrackerModel {
    match t.new_group {
        Some(g) => TrackerModel {
            groups: t.groups.push(
                DecoderGroupState {
                    first_tag_of_every_group_entry: tag,
                    num_entries: g.num_entries,
                    current_entry_i: 0,
                    index_of_group_tag: g.index_of_group_tag,
                },
            ),
            new_group: None,
            data_field_length: t.data_field_length,
        },
        None => TrackerModel {
            groups: spec_settle(t.groups, tag),
            new_group: None,
            data_field_length: t.data_field_length,
        },
    }
}

/// The context of a field that arrives now: the entry being read of the
/// innermost open group, or the root.
pub open spec fn spec_context(groups: Seq<DecoderGroupState>) -> FieldLocatorContext {
    if groups.len() == 0 {
        FieldLocatorContext::TopLevel
    } else {
        FieldLocatorContext::WithinGroup {
            index_of_group_tag: groups.last().index_of_group_tag,
            entry_index: groups.last().current_entry_i,
        }
    }
}

/// Every open group reads an entry that its count allows.
pub open spec fn groups_in_range(groups: Seq<DecoderGroupState>) -> bool {
    forall|i: int|
        0 <= i < groups.len() ==> (#[trigger] groups[i]).current_entry_i < groups[i].num_entries
}

/// The tracker after the count of a group was read: a count above 0 makes
/// the next field open a group; a count of 0 changes nothing.
pub open spec fn spec_add_group(
    t: TrackerModel,
    tag: u32,
    index_of_group_tag: usize,
    num_entries: usize,
) -> TrackerModel {
    if num_entries > 0 {
        TrackerModel {
            groups: t.groups,
            new_group: Some(DecoderStateNewGroup { tag, index_of_group_tag, num_entries }),
            data_field_length: t.data_field_length,
        }
    } else {
        t
    }
}

/// Settling keeps every open group in the range of its count.
pub proof fn lemma_settle_in_range(groups: Seq<DecoderGroupState>, tag: u32)
    requires
        groups_in_range(groups),
    ensures
        groups_in_range(spec_settle(groups, tag)),
    decreases groups.len(),
{
    if groups.len() > 0 {
        let top = groups.last();
        let below = groups.drop_last();
        assert forall|i: int| 0 <= i < below.len() implies (#[trigger] below[i]).current_entry_i
            < below[i].num_entries by {
            assert(below[i] == groups[i]);
        }
        if tag == top.first_tag_of_every_group_entry && !spec_on_last_entry(top) {
            let r = below.push(spec_next_entry(top));
            assert forall|i: int| 0 <= i < r.len() implies (#[trigger] r[i]).current_entry_i
                < r[i].num_entries by {
                if i < r.len() - 1 {
                    assert(r[i] == groups[i]);
                }
            }
        } else {
            lemma_settle_in_range(below, tag);
        }
    }
}

/// The group tracker of a decoder.
#[derive(Debug)]
pub struct DecoderState {
    pub group_information: GroupStack,
    pub new_group: Option<DecoderStateNewGroup>,
    pub data_field_length: Option<usize>,
}

impl View for DecoderState {
    type V = TrackerModel;

    open spec fn view(&self) -> TrackerModel {
        TrackerModel {
            groups: groups_of(self.group_information),
            new_group: self.new_group,
            data_field_length: self.data_field_length,
        }
    }
}

impl DecoderState {
    /// A tracker at the start of a message: no group is open.
    pub fn new() -> (r: DecoderState)
        ensures
            r@ == (TrackerModel {
                groups: Seq::<DecoderGroupState>::empty(),
                new_group: None,
                data_field_length: None,
            }),
    {
        DecoderState { group_information: GroupStack::new(), new_group: None, data_field_length: None }
    }

    /// The locator of a field with `tag` that arrives now.
    pub fn current_field_locator(&self, tag: u32) -> (r: FieldLocator)
        ensures
            r == (FieldLocator { tag, context: spec_context(self@.groups) }),
    {
        let groups: &[DecoderGroupState] = self.group_information.as_slice();
        let context: FieldLocatorContext = match groups.last() {
            Some(group_info) => FieldLocatorContext::WithinGroup {
                index_of_group_tag: group_info.index_of_group_tag,
                entry_index: group_info.current_entry_i,
            },
            None => FieldLocatorContext::TopLevel,
        };
        FieldLocator { tag, context }
    }

    /// Opens the group whose count was read last: `tag` is the tag that
    /// opens its entries, and the first entry starts here.
    pub fn set_new_group(&mut self, tag: u32)
        requires
            old(self)@.new_group is Some,
        ensures
            final(self)@ == spec_enter(old(self)@, tag),
    {
        let new_group: DecoderStateNewGroup = self.new_group.unwrap();
        self.new_group = None;
        self.group_information.push(
            DecoderGroupState {
                first_tag_of_every_group_entry: tag,
                num_entries: new_group.num_entries,
                current_entry_i: 0,
                index_of_group_tag: new_group.index_of_group_tag,
            },
        );
    }

    /// Tests whether `tag` opens the entries of one of the open groups.
    pub fn opens_entries(&self, tag: u32) -> (r: bool)
        ensures
            r == spec_opens_entries(self@.groups, tag),
    {
        let groups: &[DecoderGroupState] = self.group_information.as_slice();
        let mut i: usize = 0;
        while i < groups.len()
            invariant
                i <= groups.len(),
                groups@ == self@.groups,
                forall|k: int|
                    0 <= k < i ==> (#[trigger] groups@[k]).first_tag_of_every_group_entry != tag,
            decreases groups.len() - i,
        {
            if groups[i].first_tag_of_every_group_entry == tag {
                assert(self@.groups[i as int].first_tag_of_every_group_entry == tag);
                return true;
            }
            i = i + 1;
        }
        false
    }

    /// Lets the open groups take note of a field with `tag`.
    pub fn settle(&mut self, tag: u32)
        ensures
            final(self)@ == (TrackerModel {
                groups: spec_settle(old(self)@.groups, tag),
                new_group: old(self)@.new_group,
                data_field_length: old(self)@.data_field_length,
            }),
    {
        loop
            invariant_except_break
                spec_settle(groups_of(self.group_information), tag) == spec_settle(
                    old(self)@.groups,
                    tag,
                ),
            invariant
                self.new_group == old(self).new_group,
                self.data_field_length == old(self).data_field_length,
            ensures
                self.new_group == old(self).new_group,
                self.data_field_length == old(self).data_field_length,
                groups_of(self.group_information) == spec_settle(old(self)@.groups, tag),
            decreases groups_of(self.group_information).len(),
        {
            let ghost before = groups_of(self.group_information);
            match self.group_information.pop() {
                None => {
                    break ;
                },
                Some(top) => {
                    let on_last_entry: bool = top.current_entry_i >= top.num_entries
                        || top.num_entries - top.current_entry_i <= 1;
                    if tag == top.first_tag_of_every_group_entry {
                        if !on_last_entry {
                            // The next entry starts here.
                            self.group_information.push(
                                DecoderGroupState {
                                    first_tag_of_every_group_entry: top.first_tag_of_every_group_entry,
                                    num_entries: top.num_entries,
                                    current_entry_i: top.current_entry_i + 1,
                                    index_of_group_tag: top.index_of_group_tag,
                                },
                            );
                            break ;
                        }
                    } else if !(on_last_entry && self.opens_entries(tag)) {
                        // The field belongs to the entry that is being read.
                        self.group_information.push(top);
                        assert(groups_of(self.group_information) =~= before);
                        break ;
                    }
                    // The group is left, and the one around it is asked.
                },
            }
        }
    }

    /// Takes note of the count of a repeating group: field number
    /// `index_of_group_tag` of the message, with `tag` and `field_value`.
    /// The value has to be an unsigned number.
    pub fn add_group(&mut self, tag: u32, index_of_group_tag: usize, field_value: &[u8]) -> (r:
        Result<(), DecodeError>)
        ensures
            match spec_parse_unsigned(field_value@, usize::MAX as nat) {
                Some(n) => r is Ok && final(self)@ == spec_add_group(
                    old(self)@,
                    tag,
                    index_of_group_tag,
                    n as usize,
                ),
                None => r == Err::<(), DecodeError>(
                    constraint_error(ConstraintViolation::NumInGroup { tag }),
                ) && final(self)@ == old(self)@,
            },
    {
        match parse_unsigned(field_value, usize::MAX as u64) {
            Some(n) => {
                let num_entries: usize = n as usize;
                if num_entries > 0 {
                    self.new_group = Some(
                        DecoderStateNewGroup { tag, index_of_group_tag, num_entries },
                    );
                }
                Ok(())
            },
            None => Err(DecodeError::constraint(ConstraintViolation::NumInGroup { tag })),
        }
    }

    /// Takes note of the length of the data field that comes next. The
    /// value has to be a decimal number.
    pub fn add_data_length(&mut self, tag: u32, field_value: &[u8]) -> (r: Result<
        (),
        DecodeError,
    >)
        ensures
            match spec_parse_unsigned(field_value@, usize::MAX as nat) {
                Some(n) => r is Ok && final(self)@ == (TrackerModel {
                    groups: old(self)@.groups,
                    new_group: old(self)@.new_group,
                    data_field_length: Some(n as usize),
                }),
                None => r == Err::<(), DecodeError>(
                    constraint_error(ConstraintViolation::Length { tag }),
                ) && final(self)@ == old(self)@,
            },
    {
        match parse_unsigned(field_value, usize::MAX as u64) {
            Some(n) => {
                self.data_field_length = Some(n as usize);
                Ok(())
            },
            None => Err(DecodeError::constraint(ConstraintViolation::Length { tag })),
        }
    }
}

} // verus!
