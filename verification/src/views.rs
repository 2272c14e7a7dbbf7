//! The mathematical view of a list: the views of its items, in order.

use vstd::prelude::*;

verus! {

/// The views of `items`, in order.
pub open spec fn views<T: View>(items: Seq<T>) -> Seq<T::V> {
    Seq::new(items.len(), |i: int| items[i]@)
}

/// Viewing a list that has one more item adds that item's view.
pub proof fn lemma_views_push<T: View>(items: Seq<T>, item: T)
    ensures
        views(items.push(item)) == views(items).push(item@),
{
}

/// The first `n + 1` views are the first `n` and the view of the item at `n`.
pub proof fn lemma_views_take<T: View>(items: Seq<T>, n: int)
    requires
        0 <= n < items.len(),
    ensures
        views(items).take(n + 1) == views(items).take(n).push(items[n]@),
        views(items).take(n + 1).drop_last() == views(items).take(n),
        views(items).take(n + 1).last() == items[n]@,
{
}

} // verus!
