//! First-match search through a sequence, as the resolver and the code
//! table both do it.

use vstd::prelude::*;

verus! {

/// `i` is the first place at which `item` stands in `items`.
pub open spec fn is_first_at<T>(items: Seq<T>, item: T, i: int) -> bool {
    &&& 0 <= i < items.len()
    &&& items[i] == item
    &&& forall|j: int| 0 <= j < i ==> items[j] != item
}

/// `item` stands at place `i` of `items` and nowhere else.
pub open spec fn only_at<T>(items: Seq<T>, item: T, i: int) -> bool {
    &&& 0 <= i < items.len()
    &&& items[i] == item
    &&& forall|j: int| 0 <= j < items.len() && j != i ==> items[j] != item
}

/// The first match is decided by what stands before it: a place that holds
/// `item`, with no `item` before it, is the one that a search returns.
pub proof fn lemma_first_match<T>(items: Seq<T>, item: T, i: int)
    requires
        is_first_at(items, item, i),
    ensures
        items.index_of_first(item) == Some(i),
{
    items.index_of_first_ensures(item);
    assert(items.contains(item));
}

/// A search through a sequence that does not hold `item` finds nothing.
pub proof fn lemma_no_match<T>(items: Seq<T>, item: T)
    requires
        forall|j: int| 0 <= j < items.len() ==> items[j] != item,
    ensures
        items.index_of_first(item) is None,
{
    items.index_of_first_ensures(item);
}

/// Where exactly one child carries an identifier, resolving that identifier
/// returns this child, wherever it stands in the enumeration.
pub proof fn lemma_only_match_is_found<T>(items: Seq<T>, item: T, i: int)
    requires
        only_at(items, item, i),
    ensures
        items.index_of_first(item) == Some(i),
{
    lemma_first_match(items, item, i);
}

/// An identifier that no child carries is not found.
pub proof fn lemma_absent_is_not_found<T>(items: Seq<T>, item: T)
    requires
        !items.contains(item),
    ensures
        items.index_of_first(item) is None,
{
    items.index_of_first_ensures(item);
}

} // verus!
