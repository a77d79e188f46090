//! Cross-references by decoder identity.
//!
//! The decoder gives every element an identity, and elements refer to each
//! other by it. A table from identities to positions is built from a list of
//! records; a reference is resolved through the table, and one whose
//! identity the table does not hold is dropped.

use vstd::prelude::*;
use std::collections::HashMap;

verus! {

/// The position of each identity in a list. Of two elements with one
/// identity the later counts.
pub open spec fn positions_of(ids: Seq<u32>) -> Map<u32, usize>
    decreases ids.len(),
{
    if ids.len() == 0 {
        Map::empty()
    } else {
        positions_of(ids.drop_last()).insert(ids.last(), (ids.len() - 1) as usize)
    }
}

/// The position that a reference resolves to: none where there is no
/// reference or the table does not hold its identity.
pub open spec fn resolve_of(id: Option<u32>, positions: Map<u32, usize>) -> Option<usize> {
    match id {
        Some(i) => if positions.contains_key(i) {
            Some(positions[i])
        } else {
            None
        },
        None => None,
    }
}

/// The positions that a list of references resolves to, in order, without
/// the references whose identity the table does not hold.
pub open spec fn resolve_all_of(ids: Seq<u32>, positions: Map<u32, usize>) -> Seq<usize>
    decreases ids.len(),
{
    if ids.len() == 0 {
        Seq::empty()
    } else {
        let rest = resolve_all_of(ids.drop_last(), positions);
        if positions.contains_key(ids.last()) {
            rest.push(positions[ids.last()])
        } else {
            rest
        }
    }
}

/// Builds the table from identities to positions.
pub fn index_identities(ids: &Vec<u32>) -> (r: HashMap<u32, usize>)
    ensures
        r@ == positions_of(ids@),
{
    let mut positions: HashMap<u32, usize> = HashMap::new();
    let mut i: usize = 0;
    assert(ids@.take(0) =~= Seq::<u32>::empty());
    while i < ids.len()
        invariant
            i <= ids@.len(),
            positions@ == positions_of(ids@.take(i as int)),
        decreases ids@.len() - i,
    {
        assert(ids@.take(i as int + 1).drop_last() =~= ids@.take(i as int));
        assert(ids@.take(i as int + 1).last() == ids@[i as int]);
        positions.insert(ids[i], i);
        i = i + 1;
    }
    assert(ids@.take(ids@.len() as int) =~= ids@);
    positions
}

/// Resolves one reference.
pub fn resolve(id: Option<u32>, positions: &HashMap<u32, usize>) -> (r: Option<usize>)
    ensures
        r == resolve_of(id, positions@),
{
    match id {
        Some(i) => match positions.get(&i) {
            Some(p) => Some(*p),
            None => None,
        },
        None => None,
    }
}

/// Resolves a list of references, dropping those that do not resolve.
pub fn resolve_all(ids: &Vec<u32>, positions: &HashMap<u32, usize>) -> (r: Vec<usize>)
    ensures
        r@ == resolve_all_of(ids@, positions@),
{
    let mut resolved: Vec<usize> = Vec::new();
    let mut i: usize = 0;
    assert(ids@.take(0) =~= Seq::<u32>::empty());
    while i < ids.len()
        invariant
            i <= ids@.len(),
            resolved@ == resolve_all_of(ids@.take(i as int), positions@),
        decreases ids@.len() - i,
    {
        assert(ids@.take(i as int + 1).drop_last() =~= ids@.take(i as int));
        assert(ids@.take(i as int + 1).last() == ids@[i as int]);
        match positions.get(&ids[i]) {
            Some(p) => {
                resolved.push(*p);
            },
            None => {},
        }
        i = i + 1;
    }
    assert(ids@.take(ids@.len() as int) =~= ids@);
    resolved
}

/// An identity is a key of the table exactly when the list holds it. Its
/// position is then that of the last element with the identity.
pub proof fn lemma_positions_of(ids: Seq<u32>, id: u32)
    requires
        ids.len() <= usize::MAX,
    ensures
        positions_of(ids).contains_key(id) <==> ids.contains(id),
        positions_of(ids).contains_key(id) ==> {
            let p = positions_of(ids)[id] as int;
            &&& 0 <= p < ids.len()
            &&& ids[p] == id
            &&& forall|j: int| p < j < ids.len() ==> #[trigger] ids[j] != id
        },
    decreases ids.len(),
{
    if ids.len() > 0 {
        let rest = ids.drop_last();
        lemma_positions_of(rest, id);
        if ids.last() == id {
            assert(ids[ids.len() - 1] == id);
        } else {
            if rest.contains(id) {
                let i = choose|i: int| 0 <= i < rest.len() && rest[i] == id;
                assert(ids[i] == id);
                let p = positions_of(rest)[id] as int;
                assert(rest[p] == ids[p]);
                assert forall|j: int| p < j < ids.len() implies #[trigger] ids[j] != id by {
                    if j < rest.len() {
                        assert(rest[j] == ids[j]);
                    }
                }
            }
            if ids.contains(id) {
                let i = choose|i: int| 0 <= i < ids.len() && ids[i] == id;
                assert(rest[i] == id);
            }
        }
    }
}

/// A reference whose identity the table does not hold resolves to nothing,
/// and any other to the position the table holds.
pub proof fn lemma_resolve_of(id: u32, positions: Map<u32, usize>)
    ensures
        !positions.contains_key(id) ==> resolve_of(Some(id), positions) == None::<usize>,
        positions.contains_key(id) ==> resolve_of(Some(id), positions) == Some(positions[id]),
        resolve_of(None, positions) == None::<usize>,
{
}

/// Every resolved position is the position of one of the references, and
/// there are no more positions than references.
pub proof fn lemma_resolve_all_sound(ids: Seq<u32>, positions: Map<u32, usize>, i: int) -> (k: int)
    requires
        0 <= i < resolve_all_of(ids, positions).len(),
    ensures
        resolve_all_of(ids, positions).len() <= ids.len(),
        i <= k < ids.len(),
        positions.contains_key(ids[k]),
        resolve_all_of(ids, positions)[i] == positions[ids[k]],
    decreases ids.len(),
{
    let rest = ids.drop_last();
    lemma_resolve_all_len(rest, positions);
    if i < resolve_all_of(rest, positions).len() {
        let k = lemma_resolve_all_sound(rest, positions, i);
        assert(rest[k] == ids[k]);
        k
    } else {
        ids.len() - 1
    }
}

/// There are no more resolved positions than references.
pub proof fn lemma_resolve_all_len(ids: Seq<u32>, positions: Map<u32, usize>)
    ensures
        resolve_all_of(ids, positions).len() <= ids.len(),
    decreases ids.len(),
{
    if ids.len() > 0 {
        lemma_resolve_all_len(ids.drop_last(), positions);
    }
}

/// A reference that does not resolve leaves the resolved list as it was.
pub proof fn lemma_dangling_is_dropped(ids: Seq<u32>, id: u32, positions: Map<u32, usize>)
    requires
        !positions.contains_key(id),
    ensures
        resolve_all_of(ids.push(id), positions) == resolve_all_of(ids, positions),
{
    assert(ids.push(id).drop_last() =~= ids);
}

/// Where every reference resolves, the resolved list holds the position of
/// each, in order.
pub proof fn lemma_resolve_all_complete(ids: Seq<u32>, positions: Map<u32, usize>)
    requires
        forall|i: int| 0 <= i < ids.len() ==> positions.contains_key(#[trigger] ids[i]),
    ensures
        resolve_all_of(ids, positions).len() == ids.len(),
        forall|i: int|
            0 <= i < ids.len() ==> #[trigger] resolve_all_of(ids, positions)[i] == positions[ids[i]],
    decreases ids.len(),
{
    if ids.len() > 0 {
        let rest = ids.drop_last();
        assert forall|i: int| 0 <= i < rest.len() implies positions.contains_key(
            #[trigger] rest[i],
        ) by {
            assert(rest[i] == ids[i]);
        }
        lemma_resolve_all_complete(rest, positions);
        assert(positions.contains_key(ids[ids.len() - 1]));
        assert forall|i: int| 0 <= i < ids.len() implies #[trigger] resolve_all_of(
            ids,
            positions,
        )[i] == positions[ids[i]] by {
            if i < rest.len() {
                assert(resolve_all_of(ids, positions)[i] == resolve_all_of(rest, positions)[i]);
                assert(rest[i] == ids[i]);
            }
        }
    }
}

} // verus!
