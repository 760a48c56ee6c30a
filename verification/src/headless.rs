use vstd::prelude::*;

use crate::bar::Bar;
use crate::medium::SortingList;
use crate::medium::sorted_bars;
use crate::ops::lemma_swap_to_multiset;
use crate::rng::shuffle_bars;

verus! {

/// The headless medium: the same contract as the visual one, with the raw
/// buffer mutation and nothing else. No counters, no pacing, no feedback;
/// its cancellation flag is permanently clear. Used to validate algorithms
/// and measure raw behaviour without real-time cost.
pub struct NonGuiVec {
    pub list: Vec<Bar>,
}

impl SortingList for NonGuiVec {
    open spec fn bars(&self) -> Seq<Bar> {
        self.list@
    }

    open spec fn wf(&self) -> bool {
        true
    }

    open spec fn instrumented(&self) -> bool {
        false
    }

    open spec fn read_count(&self) -> int {
        0
    }

    open spec fn write_count(&self) -> int {
        0
    }

    open spec fn comp_count(&self) -> int {
        0
    }

    open spec fn touched(&self) -> Seq<usize> {
        Seq::empty()
    }

    open spec fn done_flag(&self) -> bool {
        false
    }

    open spec fn delay_setting(&self) -> u64 {
        0
    }

    open spec fn room(&self, n: int) -> bool {
        true
    }

    open spec fn accepts(&self, b: Bar) -> bool {
        true
    }

    fn new(length: usize, _delay: u64) -> (r: Self) {
        let mut list: Vec<Bar> = Vec::new();
        let mut i: usize = 0;
        while i < length
            invariant
                i <= length,
                list@.len() == i,
                forall|j: int|
                    0 <= j < i ==> list@[j] == (Bar {
                        position: j as usize,
                        hue_num: j as usize,
                        hue_den: 1,
                    }),
            decreases length - i,
        {
            list.push(Bar::new(i, i, 1));
            i = i + 1;
        }
        NonGuiVec { list }
    }

    fn len(&self) -> (r: usize) {
        self.list.len()
    }

    fn swap(&mut self, index1: usize, index2: usize) -> (done: bool) {
        let a = self.list[index1];
        let b = self.list[index2];
        self.list.set(index1, b);
        self.list.set(index2, a);
        proof {
            lemma_swap_to_multiset(old(self).list@, index1 as int, index2 as int);
        }
        false
    }

    fn randomize(&mut self) {
        shuffle_bars(&mut self.list);
    }

    fn elements(&self) -> (r: &Vec<Bar>) {
        &self.list
    }

    fn get(&mut self, i: usize) -> (r: Bar) {
        self.list[i]
    }

    fn lessThan(&mut self, a: usize, b: usize) -> (r: bool) {
        let x = self.get(a);
        let y = self.get(b);
        x.position < y.position
    }

    fn lessThanEqual(&mut self, a: usize, b: usize) -> (r: bool) {
        let x = self.get(a);
        x.position <= b
    }

    fn isSorted(&mut self) -> (r: bool) {
        let mut prev: usize = 0;
        let mut k: usize = 0;
        while k < self.list.len()
            invariant
                k <= self.list@.len(),
                prev == if k == 0 {
                    0usize
                } else {
                    self.list@[k - 1].position
                },
                forall|i: int, j: int|
                    0 <= i <= j < k ==> self.list@[i].position <= self.list@[j].position,
            decreases self.list@.len() - k,
        {
            let bar = self.list[k];
            if bar.position < prev {
                assert(!sorted_bars(self.list@));
                return false;
            }
            prev = bar.position;
            k = k + 1;
        }
        true
    }

    fn set(&mut self, i: usize, elem: Bar) -> (done: bool) {
        self.list.set(i, elem);
        false
    }

    fn getListClone(&self) -> (r: Vec<Bar>) {
        let mut out: Vec<Bar> = Vec::new();
        let mut k: usize = 0;
        while k < self.list.len()
            invariant
                k <= self.list@.len(),
                out@ == self.list@.take(k as int),
            decreases self.list@.len() - k,
        {
            out.push(self.list[k]);
            proof {
                assert(out@ =~= self.list@.take(k + 1));
            }
            k = k + 1;
        }
        proof {
            assert(self.list@.take(self.list@.len() as int) =~= self.list@);
        }
        out
    }
}

} // verus!
