//! Weighted sums over sequences, and how they move when a sequence grows at
//! the back, shrinks at the front or changes in one place.  The engine's
//! bookkeeping (checks waiting, checks under way, work left) is stated with
//! these.
use vstd::prelude::*;

verus! {

/// The sum of `weight` over the items of `items`.
pub open spec fn total<A>(items: Seq<A>, weight: spec_fn(A) -> nat) -> nat
    decreases items.len(),
{
    if items.len() == 0 {
        0
    } else {
        total(items.drop_last(), weight) + weight(items.last())
    }
}

/// An item added at the back adds its weight.
pub proof fn lemma_total_push<A>(items: Seq<A>, item: A, weight: spec_fn(A) -> nat)
    ensures
        total(items.push(item), weight) == total(items, weight) + weight(item),
{
    assert(items.push(item).drop_last() =~= items);
}

/// An item taken from the front takes its weight with it.
pub proof fn lemma_total_pop_front<A>(items: Seq<A>, weight: spec_fn(A) -> nat)
    requires
        items.len() > 0,
    ensures
        total(items, weight) == weight(items[0]) + total(
            items.subrange(1, items.len() as int),
            weight,
        ),
    decreases items.len(),
{
    let rest = items.subrange(1, items.len() as int);
    if items.len() == 1 {
        assert(items.drop_last() =~= Seq::<A>::empty());
        assert(rest =~= Seq::<A>::empty());
    } else {
        lemma_total_pop_front(items.drop_last(), weight);
        assert(items.drop_last().subrange(1, items.len() - 1) =~= rest.drop_last());
        assert(rest.last() == items.last());
    }
}

/// An item replaced in place trades its weight for that of its successor.
pub proof fn lemma_total_update<A>(items: Seq<A>, at: int, item: A, weight: spec_fn(A) -> nat)
    requires
        0 <= at < items.len(),
    ensures
        total(items.update(at, item), weight) + weight(items[at]) == total(items, weight)
            + weight(item),
    decreases items.len(),
{
    let changed = items.update(at, item);
    if at == items.len() - 1 {
        assert(changed.drop_last() =~= items.drop_last());
    } else {
        lemma_total_update(items.drop_last(), at, item, weight);
        assert(changed.drop_last() =~= items.drop_last().update(at, item));
    }
}

/// A sum is zero exactly when every item weighs nothing.
pub proof fn lemma_total_zero<A>(items: Seq<A>, weight: spec_fn(A) -> nat)
    ensures
        total(items, weight) == 0 <==> (forall|i: int|
            0 <= i < items.len() ==> weight(#[trigger] items[i]) == 0),
    decreases items.len(),
{
    if items.len() > 0 {
        lemma_total_zero(items.drop_last(), weight);
        if total(items, weight) == 0 {
            assert forall|i: int| 0 <= i < items.len() implies weight(#[trigger] items[i])
                == 0 by {
                if i < items.len() - 1 {
                    assert(items.drop_last()[i] == items[i]);
                }
            }
        } else {
            if forall|i: int| 0 <= i < items.len() ==> weight(#[trigger] items[i]) == 0 {
                assert forall|i: int| 0 <= i < items.drop_last().len() implies weight(
                    #[trigger] items.drop_last()[i],
                ) == 0 by {
                    assert(items.drop_last()[i] == items[i]);
                }
                assert(weight(items[items.len() - 1]) == 0);
            }
        }
    }
}

/// Where no item weighs more than one, the sum is at most the length.
pub proof fn lemma_total_at_most_len<A>(items: Seq<A>, weight: spec_fn(A) -> nat)
    requires
        forall|i: int| 0 <= i < items.len() ==> weight(#[trigger] items[i]) <= 1,
    ensures
        total(items, weight) <= items.len(),
    decreases items.len(),
{
    if items.len() > 0 {
        assert forall|i: int| 0 <= i < items.drop_last().len() implies weight(
            #[trigger] items.drop_last()[i],
        ) <= 1 by {
            assert(items.drop_last()[i] == items[i]);
        }
        lemma_total_at_most_len(items.drop_last(), weight);
        assert(weight(items[items.len() - 1]) <= 1);
    }
}

} // verus!
