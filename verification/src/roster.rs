//! Facts about the lists of live objects.
//!
//! Every live object carries the identifier that it was given when it was
//! spawned. Identifiers are handed out in increasing order and a list keeps
//! its objects in the order in which they were spawned, so a list is sorted by
//! identifier and no identifier occurs twice in it.

use vstd::prelude::*;

verus! {

/// Whether the keys of `items` increase from each item to the next by more than `gap`.
pub open spec fn spaced<A>(items: Seq<A>, key: spec_fn(A) -> int, gap: int) -> bool {
    forall|i: int, j: int|
        #![trigger items[i], items[j]]
        0 <= i < j < items.len() ==> key(items[i]) + gap < key(items[j])
}

/// Whether the keys of `items` all lie below `limit` by more than `gap`.
pub open spec fn below<A>(items: Seq<A>, key: spec_fn(A) -> int, gap: int, limit: int) -> bool {
    forall|i: int| 0 <= i < items.len() ==> key(#[trigger] items[i]) + gap < limit
}

/// Whether some item of `items` has the key `wanted`.
pub open spec fn holds<A>(items: Seq<A>, key: spec_fn(A) -> int, wanted: int) -> bool {
    exists|i: int| 0 <= i < items.len() && key(#[trigger] items[i]) == wanted
}

/// A list stays sorted and below its limit when an item is added whose key
/// is the old limit or more, and the limit is raised above that key.
pub proof fn lemma_push_spaced<A>(
    items: Seq<A>,
    key: spec_fn(A) -> int,
    gap: int,
    limit: int,
    item: A,
    raised: int,
)
    requires
        0 <= gap,
        spaced(items, key, gap),
        below(items, key, gap, limit),
        limit <= key(item),
        key(item) + gap < raised,
    ensures
        spaced(items.push(item), key, gap),
        below(items.push(item), key, gap, raised),
{
    let longer = items.push(item);
    assert forall|i: int, j: int|
        #![trigger longer[i], longer[j]]
        0 <= i < j < longer.len() implies key(longer[i]) + gap < key(longer[j]) by {
        assert(longer[i] == items[i]);
        if j < items.len() {
            assert(longer[j] == items[j]);
        }
    }
    assert forall|i: int| 0 <= i < longer.len() implies key(#[trigger] longer[i]) + gap
        < raised by {
        if i < items.len() {
            assert(longer[i] == items[i]);
        }
    }
}

/// One more step of a filter that runs over a list from its front.
pub proof fn lemma_filter_step<A>(items: Seq<A>, keep: spec_fn(A) -> bool, n: int)
    requires
        0 <= n < items.len(),
    ensures
        items.take(n + 1).filter(keep) == if keep(items[n]) {
            items.take(n).filter(keep).push(items[n])
        } else {
            items.take(n).filter(keep)
        },
{
    reveal(Seq::filter);
    assert(items.take(n + 1).drop_last() =~= items.take(n));
}

/// What a filter keeps was in the list, in the same order.
pub proof fn lemma_filter_spaced<A>(
    items: Seq<A>,
    keep: spec_fn(A) -> bool,
    key: spec_fn(A) -> int,
    gap: int,
)
    requires
        spaced(items, key, gap),
    ensures
        spaced(items.filter(keep), key, gap),
        forall|k: int|
            0 <= k < items.filter(keep).len() ==> items.contains(
                #[trigger] items.filter(keep)[k],
            ),
    decreases items.len(),
{
    reveal(Seq::filter);
    if items.len() > 0 {
        let front = items.drop_last();
        let last = items.last();
        assert(spaced(front, key, gap)) by {
            assert forall|i: int, j: int|
                #![trigger front[i], front[j]]
                0 <= i < j < front.len() implies key(front[i]) + gap < key(front[j]) by {
                assert(front[i] == items[i] && front[j] == items[j]);
            }
        }
        lemma_filter_spaced(front, keep, key, gap);
        let kept = front.filter(keep);
        let all = items.filter(keep);
        assert forall|k: int| 0 <= k < all.len() implies items.contains(#[trigger] all[k]) by {
            if k < kept.len() {
                assert(front.contains(kept[k]));
                let m = choose|m: int| 0 <= m < front.len() && front[m] == kept[k];
                assert(items[m] == all[k]);
            } else {
                assert(items[items.len() - 1] == all[k]);
            }
        }
        assert forall|i: int, j: int|
            #![trigger all[i], all[j]]
            0 <= i < j < all.len() implies key(all[i]) + gap < key(all[j]) by {
            if j < kept.len() {
                assert(all[i] == kept[i] && all[j] == kept[j]);
            } else {
                assert(front.contains(kept[i]));
                let m = choose|m: int| 0 <= m < front.len() && front[m] == kept[i];
                assert(items[m] == all[i] && items[items.len() - 1] == all[j]);
            }
        }
    }
}

/// What a filter keeps stays below the limit that the list lay below.
pub proof fn lemma_filter_below<A>(
    items: Seq<A>,
    keep: spec_fn(A) -> bool,
    key: spec_fn(A) -> int,
    gap: int,
    limit: int,
)
    requires
        below(items, key, gap, limit),
    ensures
        below(items.filter(keep), key, gap, limit),
{
    let all = items.filter(keep);
    assert forall|k: int| 0 <= k < all.len() implies key(#[trigger] all[k]) + gap < limit by {
        items.lemma_filter_contains_rev(keep, all[k]);
        let m = choose|m: int| 0 <= m < items.len() && items[m] == all[k];
        assert(key(items[m]) + gap < limit);
    }
}

/// An item that a filter drops leaves the list for good: no item with its key stays.
pub proof fn lemma_filter_drops<A>(
    items: Seq<A>,
    keep: spec_fn(A) -> bool,
    key: spec_fn(A) -> int,
    n: int,
)
    requires
        spaced(items, key, 0),
        0 <= n < items.len(),
        !keep(items[n]),
    ensures
        !holds(items.filter(keep), key, key(items[n])),
{
    let all = items.filter(keep);
    if holds(all, key, key(items[n])) {
        let k = choose|k: int| 0 <= k < all.len() && key(#[trigger] all[k]) == key(items[n]);
        items.lemma_filter_contains_rev(keep, all[k]);
        items.lemma_filter_pred(keep, k);
        let m = choose|m: int| 0 <= m < items.len() && items[m] == all[k];
        if m < n {
            assert(key(items[m]) + 0 < key(items[n]));
        } else if n < m {
            assert(key(items[n]) + 0 < key(items[m]));
        }
    }
}

} // verus!
