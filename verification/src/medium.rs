use vstd::prelude::*;

use crate::bar::Bar;

verus! {

/// True iff the `position` keys of `s` are non-decreasing from left to right.
pub open spec fn sorted_bars(s: Seq<Bar>) -> bool {
    forall|i: int, j: int| 0 <= i <= j < s.len() ==> s[i].position <= s[j].position
}

/// The contract every sorting algorithm is written against: a container of
/// [`Bar`]s with indexed access, swapping, ordering comparisons, a sortedness
/// scan, shuffling and snapshots. Algorithms depend only on this trait, never
/// on a concrete medium, so the same algorithm runs against the instrumented
/// visual medium or the zero-overhead headless one.
///
/// An instrumented medium counts array reads, writes and comparisons and
/// remembers the most recently touched indices; a non-instrumented one keeps
/// all of those at their initial values. Every mutating operation returns the
/// medium's cooperative-cancellation flag, so the driving algorithm can abort
/// promptly once the user asks to exit.
pub trait SortingList: Sized {
    /// The abstract contents of the medium's buffer.
    spec fn bars(&self) -> Seq<Bar>;

    /// Internal well-formedness of the medium.
    spec fn wf(&self) -> bool;

    /// Whether this medium instruments operations with counters and
    /// touched-index highlights.
    spec fn instrumented(&self) -> bool;

    /// Running count of array reads.
    spec fn read_count(&self) -> int;

    /// Running count of array writes.
    spec fn write_count(&self) -> int;

    /// Running count of ordering comparisons.
    spec fn comp_count(&self) -> int;

    /// The most recently touched indices, kept for rendering emphasis.
    spec fn touched(&self) -> Seq<usize>;

    /// The cooperative-cancellation flag.
    spec fn done_flag(&self) -> bool;

    /// The delay setting, in milliseconds, that an instrumented medium
    /// paces itself by; a non-instrumented medium has none and reports 0.
    spec fn delay_setting(&self) -> u64;

    /// Headroom in the counters for `n` more increments (a machine limit,
    /// not part of the abstract behaviour).
    spec fn room(&self, n: int) -> bool;

    /// Which bars may be written into the medium.
    spec fn accepts(&self, b: Bar) -> bool;

    /// Builds a medium of `length` bars whose `position` keys are an already
    /// sorted run, each with a hue assigned from its initial rank so that
    /// distinct bars get distinct hues.
    fn new(length: usize, delay: u64) -> (r: Self)
        requires
            length <= usize::MAX / 1000,
        ensures
            r.wf(),
            r.bars().len() == length,
            r.read_count() == 0,
            r.write_count() == 0,
            r.comp_count() == 0,
            r.touched() == Seq::<usize>::empty(),
            !r.done_flag(),
            r.delay_setting() == (if r.instrumented() {
                delay
            } else {
                0u64
            }),
            r.instrumented() ==> forall|i: int|
                0 <= i < length ==> r.bars()[i] == (Bar {
                    position: (i + 1) as usize,
                    hue_num: (i + 1) as usize,
                    hue_den: length,
                }),
            !r.instrumented() ==> forall|i: int|
                0 <= i < length ==> r.bars()[i] == (Bar {
                    position: i as usize,
                    hue_num: i as usize,
                    hue_den: 1,
                }),
    ;

    /// The number of bars; fixed at construction.
    fn len(&self) -> (r: usize)
        ensures
            r == self.bars().len(),
    ;

    /// Exchanges the bars at `index1` and `index2`; counts two reads and two
    /// writes on an instrumented medium and returns the cancellation flag.
    fn swap(&mut self, index1: usize, index2: usize) -> (done: bool)
        requires
            old(self).wf(),
            index1 < old(self).bars().len(),
            index2 < old(self).bars().len(),
            old(self).room(2),
        ensures
            final(self).wf(),
            final(self).bars() == old(self).bars().update(
                index1 as int,
                old(self).bars()[index2 as int],
            ).update(index2 as int, old(self).bars()[index1 as int]),
            final(self).bars().to_multiset() == old(self).bars().to_multiset(),
            final(self).read_count() == old(self).read_count() + (if final(self).instrumented() {
                2int
            } else {
                0int
            }),
            final(self).write_count() == old(self).write_count() + (if final(self).instrumented() {
                2int
            } else {
                0int
            }),
            final(self).comp_count() == old(self).comp_count(),
            final(self).instrumented() ==> final(self).touched() == seq![index1, index2],
            !final(self).instrumented() ==> final(self).touched() == old(self).touched(),
            final(self).done_flag() == old(self).done_flag(),
            final(self).delay_setting() == old(self).delay_setting(),
            done == final(self).done_flag(),
            final(self).instrumented() == old(self).instrumented(),
            forall|b: Bar| #[trigger] final(self).accepts(b) == old(self).accepts(b),
    ;

    /// Shuffles the buffer in place; not an algorithmic operation, so the
    /// counters and the touched indices are unaffected.
    fn randomize(&mut self)
        requires
            old(self).wf(),
        ensures
            final(self).wf(),
            final(self).bars().len() == old(self).bars().len(),
            final(self).bars().to_multiset() == old(self).bars().to_multiset(),
            final(self).read_count() == old(self).read_count(),
            final(self).write_count() == old(self).write_count(),
            final(self).comp_count() == old(self).comp_count(),
            final(self).touched() == old(self).touched(),
            final(self).done_flag() == old(self).done_flag(),
            final(self).delay_setting() == old(self).delay_setting(),
            final(self).instrumented() == old(self).instrumented(),
            forall|b: Bar| #[trigger] final(self).accepts(b) == old(self).accepts(b),
    ;

    /// A read-only traversal of the buffer for external reporting; not
    /// counted.
    fn elements(&self) -> (r: &Vec<Bar>)
        ensures
            r@ == self.bars(),
    ;

    /// The bar at index `i`; counts one read on an instrumented medium.
    fn get(&mut self, i: usize) -> (r: Bar)
        requires
            old(self).wf(),
            i < old(self).bars().len(),
            old(self).room(1),
        ensures
            final(self).wf(),
            final(self).bars() == old(self).bars(),
            r == final(self).bars()[i as int],
            final(self).read_count() == old(self).read_count() + (if final(self).instrumented() {
                1int
            } else {
                0int
            }),
            final(self).write_count() == old(self).write_count(),
            final(self).comp_count() == old(self).comp_count(),
            final(self).instrumented() ==> final(self).touched() == seq![i],
            !final(self).instrumented() ==> final(self).touched() == old(self).touched(),
            final(self).done_flag() == old(self).done_flag(),
            final(self).delay_setting() == old(self).delay_setting(),
            final(self).instrumented() == old(self).instrumented(),
            forall|b: Bar| #[trigger] final(self).accepts(b) == old(self).accepts(b),
    ;

    /// Whether the bar at `a` orders strictly before the bar at `b`; counts
    /// one comparison and the two reads implied by the two lookups.
    fn lessThan(&mut self, a: usize, b: usize) -> (r: bool)
        requires
            old(self).wf(),
            a < old(self).bars().len(),
            b < old(self).bars().len(),
            old(self).room(2),
        ensures
            final(self).wf(),
            final(self).bars() == old(self).bars(),
            r == (final(self).bars()[a as int].position < final(self).bars()[b as int].position),
            final(self).read_count() == old(self).read_count() + (if final(self).instrumented() {
                2int
            } else {
                0int
            }),
            final(self).write_count() == old(self).write_count(),
            final(self).comp_count() == old(self).comp_count() + (if final(self).instrumented() {
                1int
            } else {
                0int
            }),
            final(self).instrumented() ==> final(self).touched() == seq![b],
            !final(self).instrumented() ==> final(self).touched() == old(self).touched(),
            final(self).done_flag() == old(self).done_flag(),
            final(self).delay_setting() == old(self).delay_setting(),
            final(self).instrumented() == old(self).instrumented(),
            forall|b: Bar| #[trigger] final(self).accepts(b) == old(self).accepts(b),
    ;

    /// Whether the bar at `a` orders at or before the raw key `b` (an
    /// intentionally asymmetric comparison against an already extracted
    /// value); counts one comparison and one read.
    fn lessThanEqual(&mut self, a: usize, b: usize) -> (r: bool)
        requires
            old(self).wf(),
            a < old(self).bars().len(),
            old(self).room(2),
        ensures
            final(self).wf(),
            final(self).bars() == old(self).bars(),
            r == (final(self).bars()[a as int].position <= b),
            final(self).read_count() == old(self).read_count() + (if final(self).instrumented() {
                1int
            } else {
                0int
            }),
            final(self).write_count() == old(self).write_count(),
            final(self).comp_count() == old(self).comp_count() + (if final(self).instrumented() {
                1int
            } else {
                0int
            }),
            final(self).instrumented() ==> final(self).touched() == seq![a],
            !final(self).instrumented() ==> final(self).touched() == old(self).touched(),
            final(self).done_flag() == old(self).done_flag(),
            final(self).delay_setting() == old(self).delay_setting(),
            final(self).instrumented() == old(self).instrumented(),
            forall|b: Bar| #[trigger] final(self).accepts(b) == old(self).accepts(b),
    ;

    /// True iff the `position` keys are non-decreasing across the whole
    /// buffer; the scan counts one read per bar on an instrumented medium.
    fn isSorted(&mut self) -> (r: bool)
        requires
            old(self).wf(),
            old(self).room(old(self).bars().len() as int),
        ensures
            final(self).wf(),
            final(self).bars() == old(self).bars(),
            r == sorted_bars(final(self).bars()),
            final(self).read_count() == old(self).read_count() + (if final(self).instrumented() {
                final(self).bars().len() as int
            } else {
                0int
            }),
            final(self).write_count() == old(self).write_count(),
            final(self).comp_count() == old(self).comp_count(),
            final(self).touched() == old(self).touched(),
            final(self).done_flag() == old(self).done_flag(),
            final(self).delay_setting() == old(self).delay_setting(),
            final(self).instrumented() == old(self).instrumented(),
            forall|b: Bar| #[trigger] final(self).accepts(b) == old(self).accepts(b),
    ;

    /// Overwrites the bar at `i` with `elem`; counts one read and one write
    /// on an instrumented medium and returns the cancellation flag.
    fn set(&mut self, i: usize, elem: Bar) -> (done: bool)
        requires
            old(self).wf(),
            i < old(self).bars().len(),
            old(self).accepts(elem),
            old(self).room(1),
        ensures
            final(self).wf(),
            final(self).bars() == old(self).bars().update(i as int, elem),
            final(self).read_count() == old(self).read_count() + (if final(self).instrumented() {
                1int
            } else {
                0int
            }),
            final(self).write_count() == old(self).write_count() + (if final(self).instrumented() {
                1int
            } else {
                0int
            }),
            final(self).comp_count() == old(self).comp_count(),
            final(self).instrumented() ==> final(self).touched() == seq![i],
            !final(self).instrumented() ==> final(self).touched() == old(self).touched(),
            final(self).done_flag() == old(self).done_flag(),
            final(self).delay_setting() == old(self).delay_setting(),
            done == final(self).done_flag(),
            final(self).instrumented() == old(self).instrumented(),
            forall|b: Bar| #[trigger] final(self).accepts(b) == old(self).accepts(b),
    ;

    /// An independent copy of the current buffer, for consumers that must
    /// not alias live mutation.
    fn getListClone(&self) -> (r: Vec<Bar>)
        ensures
            r@ == self.bars(),
    ;
}

} // verus!
