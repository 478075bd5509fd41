//! The running-median heap of the `medianheap` crate, as far as this library
//! uses it. Nothing in this file is proved: each contract states what the
//! crate's source shows of the call.

use crate::median::{median_of, Median};
use medianheap::MedianHeap;
use vstd::multiset::Multiset;
use vstd::prelude::*;

verus! {

#[verifier::external_type_specification]
#[verifier::external_body]
#[verifier::reject_recursive_types(T)]
pub struct ExMedianHeap<T: Ord>(MedianHeap<T>);

/// The items that a heap holds, each as often as it was pushed and not yet
/// removed.
pub uninterp spec fn heap_items(heap: MedianHeap<i16>) -> Multiset<i16>;

/// The size that a heap was told not to grow beyond, if any.
pub uninterp spec fn heap_max_size(heap: MedianHeap<i16>) -> Option<usize>;

/// `MedianHeap::with_max_size`: an empty heap that grows to `max_size` items.
/// The call panics on zero, and reserves room for `(max_size + 3) / 2` items
/// twice over, which the bound keeps within what an allocation can hold.
#[verifier::external_body]
pub(crate) fn heap_with_max_size(max_size: usize) -> (heap: MedianHeap<i16>)
    requires
        0 < max_size <= isize::MAX - 3,
    ensures
        heap_items(heap) == Multiset::<i16>::empty(),
        heap_max_size(heap) == Some(max_size),
{
    MedianHeap::with_max_size(max_size)
}

/// `MedianHeap::push` on a heap that is not full: the item joins the others,
/// and none leaves. (On a full heap the crate removes the smallest or the
/// largest item, or both; this library never pushes onto a full heap.)
#[verifier::external_body]
pub(crate) fn heap_push(heap: &mut MedianHeap<i16>, item: i16)
    requires
        heap_max_size(*old(heap)) matches Some(max_size) && heap_items(*old(heap)).len() < max_size,
    ensures
        heap_items(*final(heap)) == heap_items(*old(heap)).insert(item),
        heap_max_size(*final(heap)) == heap_max_size(*old(heap)),
{
    heap.push(item)
}

/// `MedianHeap::median`: nothing for an empty heap, the middle item for an odd
/// number of items, the two middlemost items, lower first, for an even number.
#[verifier::external_body]
pub(crate) fn heap_median(heap: &MedianHeap<i16>) -> (m: Option<Median>)
    ensures
        m == median_of(heap_items(*heap)),
{
    match heap.median() {
        None => None,
        Some(medianheap::Median::Single(v)) => Some(Median::Single(*v)),
        Some(medianheap::Median::Pair(l, r)) => Some(Median::Pair(*l, *r)),
    }
}

/// `MedianHeap::median_with`: nothing for an empty heap, the middle item for
/// an odd number of items; for an even number, what `combine` returns for the
/// two middlemost items, lower first. `combine` is called for a pair only, and
/// once.
#[verifier::external_body]
pub(crate) fn heap_median_with<F: FnOnce(&i16, &i16) -> i16>(
    heap: &MedianHeap<i16>,
    combine: F,
) -> (m: Option<i16>)
    requires
        forall|l: i16, r: i16|
            median_of(heap_items(*heap)) == Some(Median::Pair(l, r)) ==> call_requires(
                combine,
                (&l, &r),
            ),
    ensures
        match median_of(heap_items(*heap)) {
            None => m is None,
            Some(Median::Single(v)) => m == Some(v),
            Some(Median::Pair(l, r)) => m matches Some(c) && call_ensures(combine, (&l, &r), c),
        },
{
    heap.median_with(combine)
}

} // verus!
