//! Lists of values as sequences of their views.

use vstd::prelude::*;

verus! {

/// The views of the items of a list.
pub open spec fn views<T: View>(items: Seq<T>) -> Seq<T::V> {
    items.map_values(|item: T| item@)
}

/// The view of an optional value.
pub open spec fn view_of<T: View>(item: Option<T>) -> Option<T::V> {
    match item {
        Some(t) => Some(t@),
        None => None,
    }
}

/// Appending an item appends its view.
pub broadcast proof fn lemma_views_push<T: View>(items: Seq<T>, item: T)
    ensures
        #[trigger] views(items.push(item)) == views(items).push(item@),
{
    assert(views(items.push(item)) =~= views(items).push(item@));
}

} // verus!
