//! A bounded window over a stream of raw codes that answers for the median
//! of what it holds. The window keeps the most recent codes, in the order in
//! which they came; the median is taken by a running-median heap.

use crate::heap::{
    heap_items, heap_max_size, heap_median, heap_median_with, heap_push, heap_with_max_size,
};
use crate::median::{at_most, lemma_median_is_middle_of_sorted, median_of, middle, Median};
use medianheap::MedianHeap;
use std::collections::VecDeque;
use vstd::prelude::*;

verus! {

/// The last `n` values of `s`, or all of `s` where it holds no more than `n`.
pub open spec fn most_recent(s: Seq<i16>, n: nat) -> Seq<i16> {
    if s.len() <= n {
        s
    } else {
        s.skip(s.len() - n)
    }
}

/// What a window of the given capacity holds after `pushes` were pushed onto
/// it in turn, the window being empty at first.
pub open spec fn pushed(capacity: nat, pushes: Seq<i16>) -> Seq<i16>
    decreases pushes.len(),
{
    if pushes.len() == 0 {
        Seq::empty()
    } else {
        most_recent(pushed(capacity, pushes.drop_last()).push(pushes.last()), capacity)
    }
}

/// One more push makes a window of what it held and the code pushed, less
/// the oldest code where that is one too many.
pub proof fn lemma_push_extends(capacity: nat, pushes: Seq<i16>, sample: i16)
    ensures
        pushed(capacity, pushes.push(sample)) == most_recent(
            pushed(capacity, pushes).push(sample),
            capacity,
        ),
{
    assert(pushes.push(sample).drop_last() =~= pushes);
}

/// Whatever was pushed, and however much of it, a window holds the most recent
/// codes, as many as were pushed and no more than its capacity. Pushing more
/// than the capacity lets go of exactly the oldest codes in excess.
pub proof fn lemma_window_holds_most_recent(capacity: nat, pushes: Seq<i16>)
    ensures
        pushed(capacity, pushes) == most_recent(pushes, capacity),
        pushed(capacity, pushes).len() == if pushes.len() <= capacity {
            pushes.len()
        } else {
            capacity
        },
        pushes.len() > capacity ==> pushed(capacity, pushes) == pushes.skip(
            pushes.len() - capacity,
        ),
    decreases pushes.len(),
{
    if pushes.len() > 0 {
        let earlier = pushes.drop_last();
        lemma_window_holds_most_recent(capacity, earlier);
        assert(most_recent(most_recent(earlier, capacity).push(pushes.last()), capacity)
            =~= most_recent(pushes, capacity));
    }
}

/// After any pushes, the median of a window is the median of the most recent
/// codes: sort them, and take the middle.
pub proof fn lemma_median_after_pushes(capacity: nat, pushes: Seq<i16>)
    ensures
        median_of(pushed(capacity, pushes).to_multiset()) == middle(
            most_recent(pushes, capacity).sort_by(at_most()),
        ),
{
    lemma_window_holds_most_recent(capacity, pushes);
    lemma_median_is_middle_of_sorted(most_recent(pushes, capacity));
}

/// The number of codes that a window holds unless told otherwise.
pub const DEFAULT_CAPACITY: usize = 10000;

/// The largest capacity that a window can be made with.
pub open spec fn max_capacity() -> nat {
    (isize::MAX - 3) as nat
}

/// The most recent raw codes of a stream, oldest first, never more than the
/// capacity that the window was made with. What was pushed before is kept
/// in mind for the contracts only; it takes no room.
pub struct MedianWindow {
    samples: VecDeque<i16>,
    capacity: usize,
    pushes: Ghost<Seq<i16>>,
}

impl View for MedianWindow {
    type V = Seq<i16>;

    closed spec fn view(&self) -> Seq<i16> {
        self.samples@
    }
}

impl Default for MedianWindow {
    /// An empty window that holds up to 10000 codes.
    fn default() -> (window: MedianWindow)
        ensures
            window@ == Seq::<i16>::empty(),
            window.pushes() == Seq::<i16>::empty(),
            window.spec_capacity() == DEFAULT_CAPACITY,
    {
        MedianWindow::new(DEFAULT_CAPACITY)
    }
}

impl MedianWindow {
    #[verifier::type_invariant]
    spec fn inv(&self) -> bool {
        &&& 0 < self.capacity <= max_capacity()
        &&& self.samples@ == most_recent(self.pushes@, self.capacity as nat)
    }

    /// The capacity that the window was made with.
    pub closed spec fn spec_capacity(&self) -> usize {
        self.capacity
    }

    /// All the codes that were ever pushed onto the window, oldest first.
    pub closed spec fn pushes(&self) -> Seq<i16> {
        self.pushes@
    }

    /// An empty window that holds up to `capacity` codes.
    pub fn new(capacity: usize) -> (window: MedianWindow)
        requires
            0 < capacity <= max_capacity(),
        ensures
            window@ == Seq::<i16>::empty(),
            window.pushes() == Seq::<i16>::empty(),
            window.spec_capacity() == capacity,
    {
        MedianWindow { samples: VecDeque::new(), capacity, pushes: Ghost(Seq::empty()) }
    }

    /// The capacity that the window was made with.
    #[verifier::when_used_as_spec(spec_capacity)]
    pub fn capacity(&self) -> (capacity: usize)
        ensures
            capacity == self.spec_capacity(),
            0 < capacity <= max_capacity(),
    {
        proof {
            use_type_invariant(self);
        }
        self.capacity
    }

    /// The number of codes in the window: as many as were pushed, and never
    /// more than the capacity.
    pub fn len(&self) -> (len: usize)
        ensures
            len == self@.len(),
            len <= self.spec_capacity(),
            len == if self.pushes().len() <= self.spec_capacity() {
                self.pushes().len()
            } else {
                self.spec_capacity() as nat
            },
            self@ == most_recent(self.pushes(), self.spec_capacity() as nat),
    {
        proof {
            use_type_invariant(self);
        }
        self.samples.len()
    }

    /// Whether no code was pushed yet.
    pub fn is_empty(&self) -> (empty: bool)
        ensures
            empty <==> self@.len() == 0,
            empty <==> self.pushes().len() == 0,
    {
        proof {
            use_type_invariant(self);
        }
        self.samples.len() == 0
    }

    /// The codes in the window, oldest first.
    pub fn to_vec(&self) -> (samples: Vec<i16>)
        ensures
            samples@ == self@,
    {
        let n = self.samples.len();
        let mut samples: Vec<i16> = Vec::with_capacity(n);
        let mut i: usize = 0;
        while i < n
            invariant
                i <= n,
                n == self.samples@.len(),
                samples@ == self.samples@.take(i as int),
            decreases n - i,
        {
            samples.push(self.samples[i]);
            i += 1;
        }
        samples
    }

    /// Takes one more code in. A full window lets its oldest code go first.
    pub fn push(&mut self, sample: i16)
        ensures
            final(self).pushes() == old(self).pushes().push(sample),
            final(self)@ == most_recent(final(self).pushes(), old(self).spec_capacity() as nat),
            final(self)@ == most_recent(old(self)@.push(sample), old(self).spec_capacity() as nat),
            final(self).spec_capacity() == old(self).spec_capacity(),
            0 < final(self)@.len() <= final(self).spec_capacity(),
    {
        proof {
            use_type_invariant(&*self);
        }
        let mut window = MedianWindow::new(self.capacity);
        std::mem::swap(self, &mut window);
        let MedianWindow { samples, capacity, pushes } = window;
        let mut samples = samples;
        if samples.len() >= capacity {
            let _ = samples.pop_front();
        }
        samples.push_back(sample);
        assert(samples@ =~= most_recent(old(self).samples@.push(sample), capacity as nat));
        assert(samples@ =~= most_recent(pushes@.push(sample), capacity as nat));
        *self = MedianWindow { samples, capacity, pushes: Ghost(pushes@.push(sample)) };
    }

    /// A heap that holds what the window holds.
    fn to_heap(&self) -> (heap: MedianHeap<i16>)
        requires
            self@.len() > 0,
        ensures
            heap_items(heap) == self@.to_multiset(),
    {
        proof {
            use_type_invariant(self);
        }
        let n = self.samples.len();
        let mut heap = heap_with_max_size(n);
        let mut i: usize = 0;
        proof {
            let none = self.samples@.take(0);
            none.to_multiset_ensures();
            vstd::multiset::lemma_multiset_empty_len(none.to_multiset());
        }
        while i < n
            invariant
                i <= n,
                n == self.samples@.len(),
                heap_max_size(heap) == Some(n),
                heap_items(heap) == self.samples@.take(i as int).to_multiset(),
            decreases n - i,
        {
            proof {
                let taken = self.samples@.take(i as int);
                taken.to_multiset_ensures();
                assert(self.samples@.take(i + 1) =~= taken.push(self.samples@[i as int]));
            }
            heap_push(&mut heap, self.samples[i]);
            i += 1;
        }
        assert(self.samples@.take(n as int) =~= self.samples@);
        heap
    }

    /// The median of the codes in the window: nothing while the window is
    /// empty, else the middle code of the codes in ascending order, or the
    /// two middle codes where their number is even.
    pub fn median(&self) -> (median: Option<Median>)
        ensures
            median == median_of(self@.to_multiset()),
            median == middle(
                most_recent(self.pushes(), self.spec_capacity() as nat).sort_by(at_most()),
            ),
            median is None <==> self@.len() == 0,
            median is None <==> self.pushes().len() == 0,
    {
        proof {
            use_type_invariant(self);
            lemma_median_is_middle_of_sorted(self@);
        }
        if self.samples.len() == 0 {
            None
        } else {
            let heap = self.to_heap();
            heap_median(&heap)
        }
    }

    /// The median as one code: the middle code, or what `combine` makes of the
    /// two middle codes.
    pub fn median_with<F: FnOnce(&i16, &i16) -> i16>(&self, combine: F) -> (median: Option<i16>)
        requires
            forall|l: i16, r: i16|
                median_of(self@.to_multiset()) == Some(Median::Pair(l, r)) ==> call_requires(
                    combine,
                    (&l, &r),
                ),
        ensures
            match median_of(self@.to_multiset()) {
                None => median is None,
                Some(Median::Single(v)) => median == Some(v),
                Some(Median::Pair(l, r)) => median matches Some(c) && call_ensures(
                    combine,
                    (&l, &r),
                    c,
                ),
            },
            median is None <==> self@.len() == 0,
            median is None <==> self.pushes().len() == 0,
    {
        proof {
            use_type_invariant(self);
            lemma_median_is_middle_of_sorted(self@);
        }
        if self.samples.len() == 0 {
            None
        } else {
            let heap = self.to_heap();
            heap_median_with(&heap, combine)
        }
    }
}

} // verus!
