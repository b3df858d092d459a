//! Sequences used as ordered sets: nothing occurs twice, and what came first
//! stays first.

use vstd::prelude::*;

verus! {

/// `items` with `item` at its end, unless `items` holds it already.
pub open spec fn append_if_absent<T>(items: Seq<T>, item: T) -> Seq<T> {
    if items.contains(item) {
        items
    } else {
        items.push(item)
    }
}

/// The first occurrence of each element of `items`, in the order of `items`.
pub open spec fn distinct<T>(items: Seq<T>) -> Seq<T>
    decreases items.len(),
{
    if items.len() == 0 {
        Seq::empty()
    } else {
        append_if_absent(distinct(items.drop_last()), items.last())
    }
}

/// `items` without every occurrence of `item`.
pub open spec fn without<T>(items: Seq<T>, item: T) -> Seq<T> {
    items.filter(|other: T| other != item)
}

/// How often `item` occurs in `items`.
pub open spec fn occurrences<T>(items: Seq<T>, item: T) -> nat {
    items.filter(|other: T| other == item).len()
}

/// Appending an absent element keeps a sequence free of duplicates, and the
/// result holds what was there before and the element.
pub proof fn lemma_append_if_absent<T>(items: Seq<T>, item: T)
    ensures
        items.no_duplicates() ==> append_if_absent(items, item).no_duplicates(),
        append_if_absent(items, item).contains(item),
        forall|other: T|
            append_if_absent(items, item).contains(other) <==> (other == item || items.contains(
                other,
            )),
{
    let after = append_if_absent(items, item);
    if items.contains(item) {
    } else {
        assert(after[items.len() as int] == item);
        assert forall|other: T| after.contains(other) <==> (other == item || items.contains(
            other,
        )) by {
            if items.contains(other) {
                let i = choose|i: int| 0 <= i < items.len() && items[i] == other;
                assert(after[i] == other);
            }
        }
    }
}

/// `distinct` keeps exactly the elements of its argument, each once.
pub proof fn lemma_distinct<T>(items: Seq<T>)
    ensures
        distinct(items).no_duplicates(),
        forall|item: T| distinct(items).contains(item) <==> items.contains(item),
    decreases items.len(),
{
    if items.len() == 0 {
    } else {
        let front = items.drop_last();
        lemma_distinct(front);
        lemma_append_if_absent(distinct(front), items.last());
        assert forall|item: T| distinct(items).contains(item) <==> items.contains(item) by {
            if items.contains(item) {
                let i = choose|i: int| 0 <= i < items.len() && items[i] == item;
                if i < items.len() - 1 {
                    assert(front[i] == item);
                }
            }
            if front.contains(item) {
                let i = choose|i: int| 0 <= i < front.len() && front[i] == item;
                assert(items[i] == item);
            }
            assert(items[items.len() - 1] == items.last());
        }
    }
}

/// A sequence without duplicates is its own ordered set.
pub proof fn lemma_distinct_of_distinct<T>(items: Seq<T>)
    requires
        items.no_duplicates(),
    ensures
        distinct(items) == items,
    decreases items.len(),
{
    if items.len() == 0 {
        assert(distinct(items) =~= items);
    } else {
        let front = items.drop_last();
        lemma_distinct_of_distinct(front);
        if front.contains(items.last()) {
            let i = choose|i: int| 0 <= i < front.len() && front[i] == items.last();
            assert(items[i] == items[items.len() - 1]);
        }
        assert(front.push(items.last()) =~= items);
    }
}

/// An element of a sequence without duplicates occurs in it once, and one
/// that the sequence does not hold occurs in it zero times.
pub proof fn lemma_occurrences<T>(items: Seq<T>, item: T)
    requires
        items.no_duplicates(),
    ensures
        occurrences(items, item) == (if items.contains(item) {
            1nat
        } else {
            0nat
        }),
    decreases items.len(),
{
    reveal(Seq::filter);
    let same = |other: T| other == item;
    if items.len() == 0 {
    } else {
        let front = items.drop_last();
        lemma_occurrences(front, item);
        assert(items[items.len() - 1] == items.last());
        if front.contains(item) {
            let i = choose|i: int| 0 <= i < front.len() && front[i] == item;
            assert(items[i] == item);
        }
        if items.contains(item) && items.last() != item {
            let i = choose|i: int| 0 <= i < items.len() && items[i] == item;
            assert(front[i] == item);
        }
    }
}

/// Append-if-absent, applied twice with one element to a sequence without
/// duplicates, gives what one application gives, and the element occurs in
/// the result exactly once.
pub proof fn lemma_append_if_absent_twice<T>(items: Seq<T>, item: T)
    requires
        items.no_duplicates(),
    ensures
        append_if_absent(append_if_absent(items, item), item) == append_if_absent(items, item),
        occurrences(append_if_absent(items, item), item) == 1,
{
    lemma_append_if_absent(items, item);
    lemma_occurrences(append_if_absent(items, item), item);
}

/// Removing an element from a sequence without duplicates leaves a sequence
/// without duplicates that holds exactly the other elements.
pub proof fn lemma_without<T>(items: Seq<T>, item: T)
    requires
        items.no_duplicates(),
    ensures
        without(items, item).no_duplicates(),
        !without(items, item).contains(item),
        forall|other: T|
            without(items, item).contains(other) <==> (other != item && items.contains(other)),
    decreases items.len(),
{
    reveal(Seq::filter);
    if items.len() == 0 {
    } else {
        let front = items.drop_last();
        let last = items.last();
        lemma_without(front, item);
        assert(items[items.len() - 1] == last);
        let kept = without(front, item);
        assert forall|other: T|
            without(items, item).contains(other) <==> (other != item && items.contains(
                other,
            )) by {
            if items.contains(other) {
                let i = choose|i: int| 0 <= i < items.len() && items[i] == other;
                if i < items.len() - 1 {
                    assert(front[i] == other);
                }
            }
            if front.contains(other) {
                let i = choose|i: int| 0 <= i < front.len() && front[i] == other;
                assert(items[i] == other);
            }
            if last != item {
                assert(without(items, item) == kept.push(last));
                assert(kept.push(last)[kept.len() as int] == last);
                if kept.contains(other) {
                    let i = choose|i: int| 0 <= i < kept.len() && kept[i] == other;
                    assert(kept.push(last)[i] == other);
                }
            }
        }
        if last != item {
            assert(without(items, item) == kept.push(last));
            if front.contains(last) {
                let i = choose|i: int| 0 <= i < front.len() && front[i] == last;
                assert(items[i] == items[items.len() - 1]);
            }
        }
    }
}

} // verus!
