//! Lookup of records by identifier.
//!
//! A table keeps its records in file order and finds one by its identifier.
//! Where several records share an identifier the last one is found.

use std::collections::HashMap;
use vstd::prelude::*;

verus! {

broadcast use vstd::std_specs::hash::group_hash_axioms;

/// The position of the last record with the identifier, if there is one.
pub open spec fn last_position(ids: Seq<i32>, id: i32) -> Option<int>
    decreases ids.len(),
{
    if ids.len() == 0 {
        None
    } else if ids.last() == id {
        Some(ids.len() - 1)
    } else {
        last_position(ids.drop_last(), id)
    }
}

/// Whether the map leads from every identifier to its last position, and
/// from nothing else.
pub open spec fn indexes(map: Map<i32, usize>, ids: Seq<i32>) -> bool {
    forall|id: i32|
        #![trigger map.contains_key(id)]
        #![trigger last_position(ids, id)]
        match last_position(ids, id) {
            Some(at) => map.contains_key(id) && map[id] == at,
            None => !map.contains_key(id),
        }
}

/// A found position holds the identifier, and no later position does.
pub proof fn lemma_last_position(ids: Seq<i32>, id: i32)
    ensures
        match last_position(ids, id) {
            Some(at) => 0 <= at < ids.len() && ids[at] == id && forall|later: int|
                at < later < ids.len() ==> ids[later] != id,
            None => forall|k: int| 0 <= k < ids.len() ==> ids[k] != id,
        },
    decreases ids.len(),
{
    if ids.len() > 0 && ids.last() != id {
        lemma_last_position(ids.drop_last(), id);
        match last_position(ids.drop_last(), id) {
            Some(at) => {
                assert forall|later: int| at < later < ids.len() implies ids[later] != id by {
                    if later < ids.len() - 1 {
                        assert(ids.drop_last()[later] == ids[later]);
                    }
                }
            },
            None => {
                assert forall|k: int| 0 <= k < ids.len() implies ids[k] != id by {
                    if k < ids.len() - 1 {
                        assert(ids.drop_last()[k] == ids[k]);
                    }
                }
            },
        }
    }
}

/// Builds the map from each identifier to its last position.
pub(crate) fn build_index(ids: &Vec<i32>) -> (map: HashMap<i32, usize>)
    ensures
        indexes(map@, ids@),
{
    let n = ids.len();
    let mut map: HashMap<i32, usize> = HashMap::with_capacity(n);
    let mut i: usize = 0;
    proof {
        assert(ids@.subrange(0, 0) =~= Seq::<i32>::empty());
    }
    while i < n
        invariant
            n == ids@.len(),
            i <= n,
            indexes(map@, ids@.subrange(0, i as int)),
        decreases n - i,
    {
        let ghost before = ids@.subrange(0, i as int);
        let ghost longer = ids@.subrange(0, i + 1);
        let ghost old_map = map@;
        let id = ids[i];
        map.insert(id, i);
        proof {
            assert(longer.drop_last() =~= before);
            assert(longer.last() == id);
            assert forall|other: i32|
                #![trigger map@.contains_key(other)]
                #![trigger last_position(longer, other)]
                match last_position(longer, other) {
                    Some(at) => map@.contains_key(other) && map@[other] == at,
                    None => !map@.contains_key(other),
                } by {
                if other != id {
                    assert(last_position(longer, other) == last_position(before, other));
                    assert(old_map.contains_key(other) == map@.contains_key(other));
                }
            }
        }
        i = i + 1;
    }
    proof {
        assert(ids@.subrange(0, n as int) =~= ids@);
    }
    map
}

/// Finds the last position of an identifier.
pub(crate) fn find_position(map: &HashMap<i32, usize>, ids: Ghost<Seq<i32>>, id: i32) -> (at: Option<usize>)
    requires
        indexes(map@, ids@),
    ensures
        match last_position(ids@, id) {
            Some(p) => at == Some(p as usize) && p < ids@.len(),
            None => at is None,
        },
{
    proof {
        lemma_last_position(ids@, id);
        assert(match last_position(ids@, id) {
            Some(p) => map@.contains_key(id) && map@[id] == p,
            None => !map@.contains_key(id),
        });
    }
    match map.get(&id) {
        Some(at) => Some(*at),
        None => None,
    }
}

} // verus!
