//! The build list written as a table under integer keys: the keys give the
//! order, and the result is the same ordered list that an array gives.

use vstd::prelude::*;
use crate::config::StructureBuildItem;

verus! {

/// A token of the build list with the key it was written under.
pub type Keyed = (u64, Seq<char>);

/// The views of a sequence of keyed tokens, in order.
pub open spec fn keyed_view(items: Seq<(u64, String)>) -> Seq<Keyed> {
    Seq::new(items.len(), |i: int| (items[i].0, items[i].1@))
}

/// `item` put into `sorted` behind the last element whose key is not
/// greater than its own.
pub open spec fn insert_by_key(sorted: Seq<Keyed>, item: Keyed) -> Seq<Keyed>
    decreases sorted.len(),
{
    if sorted.len() == 0 {
        seq![item]
    } else if sorted.last().0 <= item.0 {
        sorted.push(item)
    } else {
        insert_by_key(sorted.drop_last(), item).push(sorted.last())
    }
}

/// The items in the order of their keys; items with equal keys stay in the
/// order in which they were given.
pub open spec fn in_key_order(items: Seq<Keyed>) -> Seq<Keyed>
    decreases items.len(),
{
    if items.len() == 0 {
        Seq::empty()
    } else {
        insert_by_key(in_key_order(items.drop_last()), items.last())
    }
}

/// The tokens of a sequence of keyed tokens, without their keys.
pub open spec fn tokens_of(items: Seq<Keyed>) -> Seq<Seq<char>> {
    Seq::new(items.len(), |i: int| items[i].1)
}

/// Whether the keys never go down along the sequence.
pub open spec fn keys_ascend(items: Seq<Keyed>) -> bool {
    forall|i: int, j: int| 0 <= i <= j < items.len() ==> items[i].0 <= items[j].0
}

proof fn lemma_insert_at(sorted: Seq<Keyed>, place: int, item: Keyed)
    requires
        0 <= place <= sorted.len(),
        forall|j: int| place <= j < sorted.len() ==> sorted[j].0 > item.0,
        place > 0 ==> sorted[place - 1].0 <= item.0,
    ensures
        insert_by_key(sorted, item) == sorted.insert(place, item),
    decreases sorted.len(),
{
    if sorted.len() == 0 {
        assert(sorted.insert(place, item) =~= seq![item]);
    } else if place == sorted.len() {
        assert(sorted.insert(place, item) =~= sorted.push(item));
    } else {
        lemma_insert_at(sorted.drop_last(), place, item);
        assert(sorted.insert(place, item) =~= sorted.drop_last().insert(place, item).push(
            sorted.last(),
        ));
    }
}

/// Insertion keeps what was there, adds the one item, and keeps ascending
/// keys ascending.
pub proof fn lemma_insert_by_key(sorted: Seq<Keyed>, item: Keyed)
    ensures
        insert_by_key(sorted, item).len() == sorted.len() + 1,
        insert_by_key(sorted, item).to_multiset() == sorted.to_multiset().insert(item),
        keys_ascend(sorted) ==> keys_ascend(insert_by_key(sorted, item)),
    decreases sorted.len(),
{
    broadcast use vstd::seq_lib::group_to_multiset_ensures;

    let out = insert_by_key(sorted, item);
    if sorted.len() == 0 {
        assert(out =~= Seq::<Keyed>::empty().push(item));
        assert(sorted =~= Seq::<Keyed>::empty());
    } else if sorted.last().0 <= item.0 {
    } else {
        let before = sorted.drop_last();
        lemma_insert_by_key(before, item);
        assert(sorted =~= before.push(sorted.last()));
        assert(out.to_multiset() =~= sorted.to_multiset().insert(item));
        if keys_ascend(sorted) {
            assert(keys_ascend(before)) by {
                assert forall|i: int, j: int| 0 <= i <= j < before.len() implies before[i].0
                    <= before[j].0 by {
                    assert(before[i] == sorted[i] && before[j] == sorted[j]);
                }
            }
            let inner = insert_by_key(before, item);
            assert forall|i: int| 0 <= i < inner.len() implies inner[i].0 <= sorted.last().0 by {
                assert(inner.to_multiset().count(inner[i]) > 0);
                if inner[i] != item {
                    assert(before.to_multiset().count(inner[i]) > 0);
                    assert(before.contains(inner[i]));
                    let k = choose|k: int| 0 <= k < before.len() && before[k] == inner[i];
                    assert(sorted[k] == before[k]);
                }
            }
            assert forall|i: int, j: int| 0 <= i <= j < out.len() implies out[i].0
                <= out[j].0 by {
                if j < inner.len() {
                    assert(out[i] == inner[i] && out[j] == inner[j]);
                } else if i < inner.len() {
                    assert(out[i] == inner[i]);
                }
            }
        }
    }
}

/// Ordering by key keeps every item, as often as it was given, and leaves
/// the keys ascending.
pub proof fn lemma_in_key_order(items: Seq<Keyed>)
    ensures
        in_key_order(items).len() == items.len(),
        in_key_order(items).to_multiset() == items.to_multiset(),
        keys_ascend(in_key_order(items)),
    decreases items.len(),
{
    broadcast use vstd::seq_lib::group_to_multiset_ensures;

    if items.len() == 0 {
    } else {
        lemma_in_key_order(items.drop_last());
        lemma_insert_by_key(in_key_order(items.drop_last()), items.last());
        assert(items =~= items.drop_last().push(items.last()));
    }
}

/// Items whose keys already ascend are left in the order they have: a
/// table numbered in reading order gives the list that an array gives.
pub proof fn lemma_ascending_unchanged(items: Seq<Keyed>)
    requires
        keys_ascend(items),
    ensures
        in_key_order(items) == items,
    decreases items.len(),
{
    if items.len() > 0 {
        let before = items.drop_last();
        assert(keys_ascend(before)) by {
            assert forall|i: int, j: int| 0 <= i <= j < before.len() implies before[i].0
                <= before[j].0 by {
                assert(before[i] == items[i] && before[j] == items[j]);
            }
        }
        lemma_ascending_unchanged(before);
        if before.len() > 0 {
            assert(before.last() == items[items.len() - 2]);
        }
        assert(before.push(items.last()) =~= items);
    }
}

/// The build list of a table of modules under integer keys: the modules in
/// the order of their keys.
pub fn ordered_build(items: Vec<(u64, String)>) -> (build: Vec<StructureBuildItem>)
    ensures
        Seq::new(build@.len(), |i: int| build@[i].module@) == tokens_of(
            in_key_order(keyed_view(items@)),
        ),
{
    let ghost all = keyed_view(items@);
    let mut sorted: Vec<(u64, String)> = Vec::new();
    let mut i: usize = 0;
    proof {
        assert(all.take(0) =~= Seq::<Keyed>::empty());
        assert(keyed_view(sorted@) =~= Seq::<Keyed>::empty());
    }
    while i < items.len()
        invariant
            i <= items@.len(),
            all == keyed_view(items@),
            keyed_view(sorted@) == in_key_order(all.take(i as int)),
        decreases items@.len() - i,
    {
        let key = items[i].0;
        let module = items[i].1.clone();
        let ghost item: Keyed = (key, module@);
        let ghost before = keyed_view(sorted@);
        proof {
            assert(all.take(i + 1).drop_last() =~= all.take(i as int));
            assert(all.take(i + 1).last() == item);
        }
        let mut place: usize = sorted.len();
        while place > 0 && sorted[place - 1].0 > key
            invariant
                place <= sorted@.len(),
                before == keyed_view(sorted@),
                forall|j: int| place <= j < sorted@.len() ==> before[j].0 > key,
            decreases place,
        {
            place -= 1;
        }
        proof {
            lemma_insert_at(before, place as int, item);
        }
        sorted.insert(place, (key, module));
        proof {
            assert(keyed_view(sorted@) =~= before.insert(place as int, item));
        }
        i += 1;
    }
    proof {
        assert(all.take(i as int) =~= all);
    }
    let mut build: Vec<StructureBuildItem> = Vec::new();
    let mut k: usize = 0;
    while k < sorted.len()
        invariant
            k <= sorted@.len(),
            build@.len() == k,
            forall|j: int| 0 <= j < k ==> #[trigger] build@[j].module@ == sorted@[j].1@,
        decreases sorted@.len() - k,
    {
        build.push(StructureBuildItem { module: sorted[k].1.clone() });
        k += 1;
    }
    proof {
        assert(Seq::new(build@.len(), |i: int| build@[i].module@) =~= tokens_of(
            keyed_view(sorted@),
        ));
    }
    build
}

} // verus!
