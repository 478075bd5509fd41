//! The median of a collection of raw codes, as a mathematical statement.

use vstd::multiset::Multiset;
use vstd::prelude::*;
use vstd::relations::total_ordering;
use vstd::seq_lib::lemma_sorted_unique;

verus! {

/// The middle of a collection: one value where the population is odd, the two
/// central values, lower first, where it is even.
#[derive(Clone, Copy, Debug, PartialEq, Eq, Structural)]
pub enum Median {
    Single(i16),
    Pair(i16, i16),
}

impl Median {
    /// The median as one code: the single value, or the mean of the pair.
    pub open spec fn spec_code(self) -> i16 {
        match self {
            Median::Single(v) => v,
            Median::Pair(l, r) => mean_spec(l, r),
        }
    }
}

/// `s` holds its values in ascending order.
pub open spec fn ascending(s: Seq<i16>) -> bool {
    forall|i: int, j: int| 0 <= i <= j < s.len() ==> s[i] <= s[j]
}

/// The values of `items` in ascending order.
pub open spec fn in_order(items: Multiset<i16>) -> Seq<i16> {
    choose|s: Seq<i16>| ascending(s) && s.to_multiset() == items
}

/// The middle value, or the two middle values, of a sequence.
pub open spec fn middle(s: Seq<i16>) -> Option<Median> {
    let half = s.len() as int / 2;
    if s.len() == 0 {
        None
    } else if s.len() % 2 == 1 {
        Some(Median::Single(s[half]))
    } else {
        Some(Median::Pair(s[half - 1], s[half]))
    }
}

/// The median of a collection: the middle of its values in ascending order.
pub open spec fn median_of(items: Multiset<i16>) -> Option<Median> {
    middle(in_order(items))
}

/// The order of the codes, as a relation.
pub open spec fn at_most() -> spec_fn(i16, i16) -> bool {
    |a: i16, b: i16| a <= b
}

/// The values of a sequence can be put in ascending order, in one way only:
/// `in_order` of what `s` holds is `s` sorted.
pub proof fn lemma_in_order_is_sorted(s: Seq<i16>)
    ensures
        in_order(s.to_multiset()) == s.sort_by(at_most()),
        ascending(in_order(s.to_multiset())),
        in_order(s.to_multiset()).to_multiset() == s.to_multiset(),
        in_order(s.to_multiset()).len() == s.len(),
{
    let leq = at_most();
    assert(total_ordering(leq));
    let sorted = s.sort_by(leq);
    s.lemma_sort_by_ensures(leq);
    assert forall|i: int, j: int| 0 <= i <= j < sorted.len() implies sorted[i] <= sorted[j] by {
        if i < j {
            assert(leq(sorted[i], sorted[j]));
        }
    }
    let chosen = in_order(s.to_multiset());
    assert(ascending(chosen) && chosen.to_multiset() == s.to_multiset());
    lemma_sorted_unique(chosen, sorted, leq);
    s.to_multiset_ensures();
    chosen.to_multiset_ensures();
}

/// The median of a collection is found by sorting it and taking the middle.
pub proof fn lemma_median_is_middle_of_sorted(s: Seq<i16>)
    ensures
        median_of(s.to_multiset()) == middle(s.sort_by(at_most())),
        median_of(s.to_multiset()) is None <==> s.len() == 0,
{
    lemma_in_order_is_sorted(s);
}

/// The median of codes that are in ascending order already is their middle.
pub proof fn lemma_median_of_ascending(s: Seq<i16>)
    requires
        ascending(s),
    ensures
        median_of(s.to_multiset()) == middle(s),
{
    let leq = at_most();
    assert(total_ordering(leq));
    lemma_in_order_is_sorted(s);
    lemma_sorted_unique(in_order(s.to_multiset()), s, leq);
}

/// The arithmetic mean of two codes, rounded towards zero.
pub open spec fn mean_spec(a: i16, b: i16) -> i16 {
    if a + b >= 0 {
        ((a + b) / 2) as i16
    } else {
        (-((-(a + b)) / 2)) as i16
    }
}

/// The arithmetic mean of two codes, rounded towards zero. The sum is taken
/// in 32 bits, so it cannot overflow.
pub fn mean(a: i16, b: i16) -> (m: i16)
    ensures
        m == mean_spec(a, b),
{
    let sum: i32 = a as i32 + b as i32;
    (sum / 2) as i16
}

} // verus!
