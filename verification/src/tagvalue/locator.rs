//! Where a field stands in a message.
//!
//! A tag may occur once at the root of a message and once in every entry of
//! every repeating group. A locator tells these occurrences apart.
use vstd::prelude::*;

verus! {

/// The part of a message that a field belongs to.
#[derive(Debug, Clone, Copy, PartialEq, Eq, Hash, Structural)]
pub enum FieldLocatorContext {
    /// Outside any repeating group.
    TopLevel,
    /// In entry `entry_index` of the group whose count is field number
    /// `index_of_group_tag` of the message.
    WithinGroup { index_of_group_tag: usize, entry_index: usize },
}

/// One occurrence of a tag in a message.
#[derive(Debug, Clone, Copy, PartialEq, Eq, Hash, Structural)]
pub struct FieldLocator {
    pub tag: u32,
    pub context: FieldLocatorContext,
}

/// A locator as a tuple of integers, the form in which it keys the field
/// table: the tag, 0 for the root or 1 for a group, and the group's two
/// numbers.
pub type LocatorKey = (u32, u8, usize, usize);

/// The key of a locator.
pub open spec fn spec_key(locator: FieldLocator) -> LocatorKey {
    match locator.context {
        FieldLocatorContext::TopLevel => (locator.tag, 0u8, 0usize, 0usize),
        FieldLocatorContext::WithinGroup { index_of_group_tag, entry_index } => (
            locator.tag,
            1u8,
            index_of_group_tag,
            entry_index,
        ),
    }
}

/// Different locators have different keys.
pub proof fn lemma_key_injective(a: FieldLocator, b: FieldLocator)
    requires
        spec_key(a) == spec_key(b),
    ensures
        a == b,
{
}

impl FieldLocator {
    /// The key of this locator.
    pub fn key(&self) -> (r: LocatorKey)
        ensures
            r == spec_key(*self),
    {
        match self.context {
            FieldLocatorContext::TopLevel => (self.tag, 0u8, 0usize, 0usize),
            FieldLocatorContext::WithinGroup { index_of_group_tag, entry_index } => (
                self.tag,
                1u8,
                index_of_group_tag,
                entry_index,
            ),
        }
    }
}

} // verus!
