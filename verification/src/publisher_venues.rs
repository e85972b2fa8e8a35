//! The publisher-to-venue table: the default venue each data publisher is
//! presumed to report for. It is held in an `indexmap::IndexMap` so that the
//! table keeps its insertion order for deterministic iteration when callers
//! debug it; resolution itself only looks publishers up, through the trusted
//! items below.

use indexmap::IndexMap;
use vstd::prelude::*;

use crate::identifiers::{PublisherId, Venue};

verus! {

/// `indexmap::IndexMap`, an insertion-ordered hash map, declared so that the
/// resolver can carry one in its signature.
#[verifier::external_type_specification]
#[verifier::external_body]
#[verifier::reject_recursive_types(K)]
#[verifier::reject_recursive_types(V)]
#[verifier::reject_recursive_types(S)]
pub struct ExIndexMap<K, V, S>(IndexMap<K, V, S>);

/// The bindings a publisher-to-venue table holds: each publisher identifier
/// to the view of the venue stored under it. Only lookups through
/// [`publisher_venue_get`] say anything about this mapping.
pub uninterp spec fn publisher_venue_entries(map: &IndexMap<PublisherId, Venue>) -> Map<
    PublisherId,
    Seq<char>,
>;

/// Relies on `indexmap::IndexMap::get`: returns a reference to the value
/// stored under the key if the map holds one, and `None` otherwise.
#[verifier::external_body]
pub(crate) fn publisher_venue_get(map: &IndexMap<PublisherId, Venue>, publisher_id: PublisherId) -> (r:
    Option<Venue>)
    ensures
        match r {
            Some(venue) => publisher_venue_entries(map).contains_key(publisher_id) && venue@
                == publisher_venue_entries(map)[publisher_id],
            None => !publisher_venue_entries(map).contains_key(publisher_id),
        },
{
    map.get(&publisher_id).cloned()
}

} // verus!
