//! The capability-query protocol as the property cache consumes it: a
//! request names a capability category, a starting property tag and a
//! count, and the module answers with a run of tagged properties.

use vstd::prelude::*;

verus! {

/// The capability category a query asks about.
#[derive(Clone, Copy, PartialEq, Eq, Structural, Debug)]
pub enum CapabilityType {
    /// Fixed and variable module properties, as (tag, value) pairs.
    TpmProperties,
    /// Algorithms the module implements.
    Algorithms,
    /// Commands the module implements.
    Commands,
}

/// One property reported by the module: a tag and its value.
#[derive(Clone, Copy, PartialEq, Eq, Structural, Debug)]
pub struct TaggedProperty {
    /// The property tag.
    pub property: u32,
    /// The value the module reports for the tag.
    pub value: u32,
}

/// A capability query to be issued against the module.
#[derive(Clone, Copy, PartialEq, Eq, Structural, Debug)]
pub struct CapabilityRequest {
    /// The capability category queried.
    pub capability: CapabilityType,
    /// The first property tag asked for.
    pub starting_property: u32,
    /// How many properties are asked for.
    pub property_count: u32,
}

/// A decoded capability response. Only the tagged-property shape carries
/// data the property cache can consume; every other response shape is
/// summarized as `OtherShape` and rejected by the consumer.
#[derive(Clone, PartialEq, Eq, Debug)]
pub enum CapabilityData {
    /// A run of (tag, value) pairs, possibly wider than the request.
    TpmProperties(Vec<TaggedProperty>),
    /// Any response shape other than tagged properties.
    OtherShape,
}

/// Last-wins lookup of a tag in a run of tagged properties.
pub open spec fn batch_lookup(props: Seq<TaggedProperty>, tag: u32) -> Option<u32>
    decreases props.len(),
{
    if props.len() == 0 {
        None
    } else if props.last().property == tag {
        Some(props.last().value)
    } else {
        batch_lookup(props.drop_last(), tag)
    }
}

/// Looking a tag up in an extended run first consults the newly appended
/// part and falls back to the older part: appending reported properties
/// can only add or shadow entries, never lose one.
pub proof fn lemma_batch_lookup_append(a: Seq<TaggedProperty>, b: Seq<TaggedProperty>, tag: u32)
    ensures
        batch_lookup(a + b, tag) == match batch_lookup(b, tag) {
            Some(v) => Some(v),
            None => batch_lookup(a, tag),
        },
    decreases b.len(),
{
    if b.len() == 0 {
        assert(a + b =~= a);
    } else {
        lemma_batch_lookup_append(a, b.drop_last(), tag);
        assert((a + b).drop_last() =~= a + b.drop_last());
        assert((a + b).last() == b.last());
    }
}

} // verus!
