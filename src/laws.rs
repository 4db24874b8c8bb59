//! Properties that relate several operations of the collection.

use vstd::prelude::*;

use crate::codec::lemma_u128_le_round_trip;
use crate::collection::{
    count_in, instance_id, initialized_key, instances_key, is_initialized, lemma_decode_encode,
    lemma_record_keys_distinct, lookup_in, mark_initialized, record_key, with_instance,
    MAX_SUPPLY,
};
use crate::store::stored;
use crate::types::{AlkaneId, CollectionError};

verus! {

/// The state after recording each of `ids`, in order, starting from `m`.
pub open spec fn with_instances(m: Map<Seq<u8>, Seq<u8>>, ids: Seq<AlkaneId>) -> Map<Seq<u8>, Seq<u8>>
    decreases ids.len(),
{
    if ids.len() == 0 {
        m
    } else {
        with_instance(with_instances(m, ids.drop_last()), ids.last())
    }
}

/// Recording an identity and then looking up the public index it went to
/// gives that identity back, bit for bit, and the count grows by one.
pub proof fn lemma_add_then_lookup(m: Map<Seq<u8>, Seq<u8>>, id: AlkaneId)
    requires
        count_in(m) < u128::MAX,
    ensures
        lookup_in(with_instance(m, id), count_in(m)) == Ok::<AlkaneId, CollectionError>(id),
        count_in(with_instance(m, id)) == count_in(m) + 1,
{
    let n = (count_in(m) + 1) as u128;
    lemma_record_keys_distinct(n, n);
    lemma_decode_encode(id);
    lemma_u128_le_round_trip(n);
}

/// Recording a new identity leaves every other record where it was.
proof fn lemma_add_keeps_records(m: Map<Seq<u8>, Seq<u8>>, id: AlkaneId, k: u128)
    requires
        count_in(m) < u128::MAX,
        k != count_in(m) + 1,
    ensures
        stored(with_instance(m, id), record_key(k)) == stored(m, record_key(k)),
{
    let n = (count_in(m) + 1) as u128;
    lemma_record_keys_distinct(k, n);
}

/// Recording identities one after another, from empty state, leaves the
/// count at their number and each at the public index of its position: the
/// `i`-th lookup gives the identity recorded by the `(i + 1)`-th mint.
pub proof fn lemma_registry_in_order(ids: Seq<AlkaneId>)
    requires
        ids.len() < u128::MAX,
    ensures
        count_in(with_instances(Map::empty(), ids)) == ids.len(),
        forall|i: u128|
            i < ids.len() ==> #[trigger] lookup_in(with_instances(Map::empty(), ids), i)
                == Ok::<AlkaneId, CollectionError>(ids[i as int]),
    decreases ids.len(),
{
    let m = with_instances(Map::empty(), ids);
    if ids.len() == 0 {
        assert(stored(m, instances_key()).len() == 0);
    } else {
        let prev = ids.drop_last();
        let pm = with_instances(Map::empty(), prev);
        lemma_registry_in_order(prev);
        lemma_add_then_lookup(pm, ids.last());
        assert forall|i: u128| i < ids.len() implies #[trigger] lookup_in(m, i) == Ok::<
            AlkaneId,
            CollectionError,
        >(ids[i as int]) by {
            if i + 1 < ids.len() {
                lemma_add_keeps_records(pm, ids.last(), (i + 1) as u128);
                assert(lookup_in(pm, i) == Ok::<AlkaneId, CollectionError>(prev[i as int]));
            }
        }
    }
}

/// Mints made with the host's sequence values `sequences`, in order, from
/// empty state, are found in that order, each in the live-instance realm;
/// where the host's values increase, so do the recorded ones.
pub proof fn lemma_mints_in_order(sequences: Seq<u128>)
    requires
        sequences.len() < u128::MAX,
    ensures
        ({
            let m = with_instances(Map::empty(), sequences.map_values(|s: u128| instance_id(s)));
            &&& count_in(m) == sequences.len()
            &&& forall|i: u128|
                i < sequences.len() ==> #[trigger] lookup_in(m, i) == Ok::<
                    AlkaneId,
                    CollectionError,
                >(instance_id(sequences[i as int]))
            &&& (forall|i: int, j: int|
                0 <= i < j < sequences.len() ==> sequences[i] < sequences[j]) ==> forall|
                i: u128,
                j: u128,
            |
                i < j < sequences.len() ==> (#[trigger] lookup_in(m, i))->Ok_0.tx < (
                #[trigger] lookup_in(m, j))->Ok_0.tx
        }),
{
    let ids = sequences.map_values(|s: u128| instance_id(s));
    lemma_registry_in_order(ids);
}

/// From empty state, every one of `MAX_SUPPLY` mints finds room, and once
/// they are made the supply is exhausted, so a further mint is refused.
pub proof fn lemma_supply_cap(ids: Seq<AlkaneId>)
    requires
        ids.len() <= MAX_SUPPLY,
    ensures
        forall|k: int|
            0 <= k < ids.len() ==> #[trigger] count_in(with_instances(Map::empty(), ids.take(k)))
                == k && k < MAX_SUPPLY,
        count_in(with_instances(Map::empty(), ids)) == ids.len(),
        ids.len() == MAX_SUPPLY ==> count_in(with_instances(Map::empty(), ids)) >= MAX_SUPPLY,
{
    lemma_registry_in_order(ids);
    assert forall|k: int| 0 <= k < ids.len() implies #[trigger] count_in(
        with_instances(Map::empty(), ids.take(k)),
    ) == k && k < MAX_SUPPLY by {
        lemma_registry_in_order(ids.take(k));
    }
}

/// Initialization can happen once: after it, the marker is set, so a second
/// attempt finds it and fails.
pub proof fn lemma_initialize_once(m: Map<Seq<u8>, Seq<u8>>)
    ensures
        is_initialized(mark_initialized(m)),
        stored(mark_initialized(m), initialized_key()) == seq![1u8],
{
}

} // verus!
