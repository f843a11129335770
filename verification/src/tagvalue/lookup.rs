//! The fields that steer the decoder: counts of repeating groups and
//! lengths of data fields, by tag.
use crate::dict::{spec_type_of, Dictionary, FieldDefinition, FixDatatype};
use core::hash::BuildHasherDefault;
use nohash_hasher::IntMap;
use nohash_hasher::NoHashHasher;
use vstd::prelude::*;

verus! {

/// The hasher of a map that is keyed by integers: the key is its own hash.
#[verifier::external_type_specification]
#[verifier::external_body]
#[verifier::reject_recursive_types(T)]
pub struct ExNoHashHasher<T>(NoHashHasher<T>);

/// The maker of the hashers of such a map.
#[verifier::external_type_specification]
#[verifier::external_body]
#[verifier::reject_recursive_types(H)]
pub struct ExBuildHasherDefault<H>(BuildHasherDefault<H>);

/// The steering fields of a dictionary by tag.
pub type TagLookup = IntMap<u32, FixDatatype>;

/// `HashMap::insert` on a map keyed by integers: the map holds the pair
/// afterwards, in place of any value that the key had.
#[verifier::external_body]
pub(crate) fn lookup_insert(lookup: &mut TagLookup, tag: u32, data_type: FixDatatype)
    ensures
        final(lookup)@ == old(lookup)@.insert(tag, data_type),
{
    lookup.insert(tag, data_type);
}

/// `HashMap::remove` on a map keyed by integers: the map has no value for
/// the key afterwards, and is unchanged otherwise.
#[verifier::external_body]
pub(crate) fn lookup_remove(lookup: &mut TagLookup, tag: u32)
    ensures
        final(lookup)@ == old(lookup)@.remove(tag),
{
    lookup.remove(&tag);
}

/// `HashMap::get` on a map keyed by integers: the value of the key, where
/// the map has one.
#[verifier::external_body]
pub(crate) fn lookup_get(lookup: &TagLookup, tag: u32) -> (r: Option<FixDatatype>)
    ensures
        r == (if lookup@.contains_key(tag) {
            Some(lookup@[tag])
        } else {
            None
        }),
{
    lookup.get(&tag).copied()
}

/// Whether values of this type steer the decoder.
pub open spec fn steers(data_type: FixDatatype) -> bool {
    data_type == FixDatatype::Length || data_type == FixDatatype::NumInGroup
}

/// The steering fields among `fields`: those whose last definition makes
/// them a length or a count.
pub open spec fn spec_lookup(fields: Seq<FieldDefinition>) -> Map<u32, FixDatatype>
    decreases fields.len(),
{
    if fields.len() == 0 {
        Map::empty()
    } else {
        let f = fields.last();
        if steers(f.data_type) {
            spec_lookup(fields.drop_last()).insert(f.tag, f.data_type)
        } else {
            spec_lookup(fields.drop_last()).remove(f.tag)
        }
    }
}

/// A tag is in the lookup exactly if the dictionary makes it a length or a
/// count, and the lookup gives it the dictionary's type.
pub proof fn lemma_lookup_is_type_of(fields: Seq<FieldDefinition>, tag: u32)
    ensures
        spec_lookup(fields).contains_key(tag) <==> (spec_type_of(fields, tag) matches Some(t)
            && steers(t)),
        spec_lookup(fields).contains_key(tag) ==> spec_type_of(fields, tag) == Some(
            spec_lookup(fields)[tag],
        ),
    decreases fields.len(),
{
    if fields.len() > 0 {
        lemma_lookup_is_type_of(fields.drop_last(), tag);
    }
}

/// Collects the steering fields of a dictionary.
pub fn build_lookup(dict: &Dictionary) -> (r: TagLookup)
    ensures
        r@ == spec_lookup(dict.fields@),
{
    let mut lookup: TagLookup = IntMap::default();
    let fields: &Vec<FieldDefinition> = dict.fields();
    let mut i: usize = 0;
    proof {
        assert(fields@.take(0) =~= Seq::<FieldDefinition>::empty());
    }
    while i < fields.len()
        invariant
            i <= fields.len(),
            lookup@ == spec_lookup(fields@.take(i as int)),
        decreases fields.len() - i,
    {
        let field: &FieldDefinition = &fields[i];
        let mut fix_type: FixDatatype = field.data_type();
        if field.is_num_in_group() {
            fix_type = FixDatatype::NumInGroup;
        }
        proof {
            assert(fields@.take(i + 1).drop_last() =~= fields@.take(i as int));
            assert(fields@.take(i + 1).last() == fields@[i as int]);
        }
        if fix_type == FixDatatype::Length || fix_type == FixDatatype::NumInGroup {
            lookup_insert(&mut lookup, field.tag(), fix_type);
        } else {
            lookup_remove(&mut lookup, field.tag());
        }
        i = i + 1;
    }
    proof {
        assert(fields@.take(i as int) =~= fields@);
    }
    lookup
}

} // verus!
