//! Marks on the positions of a sequence, and the two parts into which
//! they split it: the items at unmarked positions, which survive, and the
//! items at marked positions, which fall.

use vstd::prelude::*;

verus! {

/// Whether position `i` is marked in `marks`. Positions beyond the end of
/// `marks` are unmarked.
pub open spec fn marked(marks: Seq<bool>, i: int) -> bool {
    0 <= i < marks.len() && marks[i]
}

/// The items at unmarked positions, in order.
pub open spec fn survivors<T>(items: Seq<T>, marks: Seq<bool>) -> Seq<T>
    decreases items.len(),
{
    if items.len() == 0 {
        items
    } else if marked(marks, items.len() - 1) {
        survivors(items.drop_last(), marks)
    } else {
        survivors(items.drop_last(), marks).push(items.last())
    }
}

/// The items at marked positions, in order.
pub open spec fn casualties<T>(items: Seq<T>, marks: Seq<bool>) -> Seq<T>
    decreases items.len(),
{
    if items.len() == 0 {
        items
    } else if marked(marks, items.len() - 1) {
        casualties(items.drop_last(), marks).push(items.last())
    } else {
        casualties(items.drop_last(), marks)
    }
}

/// Marks on every one of `count` positions.
pub open spec fn everyone(count: nat) -> Seq<bool> {
    Seq::new(count, |i: int| true)
}

/// Every survivor is an item that stood at an unmarked position.
pub proof fn lemma_survivors_unmarked<T>(items: Seq<T>, marks: Seq<bool>, k: int)
    requires
        0 <= k < survivors(items, marks).len(),
    ensures
        exists|i: int|
            0 <= i < items.len() && !marked(marks, i) && #[trigger] items[i] == survivors(
                items,
                marks,
            )[k],
    decreases items.len(),
{
    if items.len() > 0 {
        let last = items.len() - 1;
        let rest = survivors(items.drop_last(), marks);
        if !marked(marks, last) && k == rest.len() {
            assert(items[last] == survivors(items, marks)[k]);
        } else {
            lemma_survivors_unmarked(items.drop_last(), marks, k);
            let i = choose|i: int|
                0 <= i < items.drop_last().len() && !marked(marks, i)
                    && #[trigger] items.drop_last()[i] == rest[k];
            assert(items[i] == survivors(items, marks)[k]);
        }
    }
}

/// Where no position is marked, there is no casualty.
pub proof fn lemma_casualties_none<T>(items: Seq<T>, marks: Seq<bool>)
    requires
        forall|i: int| 0 <= i < items.len() ==> !marked(marks, i),
    ensures
        casualties(items, marks).len() == 0,
        survivors(items, marks) == items,
    decreases items.len(),
{
    if items.len() > 0 {
        lemma_casualties_none(items.drop_last(), marks);
        assert(survivors(items, marks) =~= items);
    }
}

/// Where exactly one position is marked, the item there is the one
/// casualty.
pub proof fn lemma_casualties_single<T>(items: Seq<T>, marks: Seq<bool>, at: int)
    requires
        0 <= at < items.len(),
        forall|i: int| 0 <= i < items.len() ==> (marked(marks, i) <==> i == at),
    ensures
        casualties(items, marks) == seq![items[at]],
    decreases items.len(),
{
    let last = items.len() - 1;
    if at == last {
        lemma_casualties_none(items.drop_last(), marks);
    } else {
        lemma_casualties_single(items.drop_last(), marks, at);
    }
    assert(casualties(items, marks) =~= seq![items[at]]);
}

/// Only the marks at positions within the sequence matter.
pub proof fn lemma_marks_beyond<T>(items: Seq<T>, a: Seq<bool>, b: Seq<bool>)
    requires
        forall|i: int| 0 <= i < items.len() ==> marked(a, i) == marked(b, i),
    ensures
        survivors(items, a) == survivors(items, b),
        casualties(items, a) == casualties(items, b),
    decreases items.len(),
{
    if items.len() > 0 {
        lemma_marks_beyond(items.drop_last(), a, b);
    }
}

/// With every position marked, nobody survives.
pub proof fn lemma_everyone_falls<T>(items: Seq<T>)
    ensures
        survivors(items, everyone(items.len())) == Seq::<T>::empty(),
        casualties(items, everyone(items.len())) == items,
    decreases items.len(),
{
    if items.len() > 0 {
        let front = items.drop_last();
        lemma_everyone_falls(front);
        lemma_marks_beyond(front, everyone(front.len()), everyone(items.len()));
        assert(casualties(items, everyone(items.len())) =~= items);
    } else {
        assert(casualties(items, everyone(items.len())) =~= items);
    }
}

} // verus!
