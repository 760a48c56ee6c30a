use vstd::prelude::*;

use crate::bar::Bar;
use crate::medium::SortingList;
use crate::medium::sorted_bars;
use crate::ops::lemma_swap_to_multiset;
use crate::parse::parse_i32;
use crate::parse::parse_u64;
use crate::parse::spec_parse_i32;
use crate::parse::spec_parse_u64;
use crate::rng::shuffle_bars;

verus! {

/// A bar's position is mapped proportionally onto `TONE_SCALE` steps to pick
/// the tone to play for it.
pub const TONE_SCALE: usize = 1000;

/// The number of pre-rendered tones the host keeps: one per scale step,
/// endpoints included.
pub const TONE_COUNT: usize = 1001;

/// The minimum real-time interval, in milliseconds, enforced between two
/// successive tone playbacks.
pub const THROTTLE_MS: u64 = 100;

/// The steps-per-frame value in effect after parsing the live text field:
/// the field's value, or `1` when it is unparseable.
pub open spec fn effective_steps(t: Seq<u8>) -> i32 {
    match spec_parse_i32(t) {
        Some(a) => a,
        None => 1,
    }
}

/// The delay in effect after parsing the live text field: the field's value
/// in milliseconds, or the maximum representable delay when the field is
/// unparseable or a pause is requested. Holding the delay effectively
/// infinite is how pausing is implemented.
pub open spec fn effective_delay(t: Seq<u8>, paused: bool) -> u64 {
    if paused {
        u64::MAX
    } else {
        match spec_parse_u64(t) {
            Some(a) => a,
            None => u64::MAX,
        }
    }
}

/// The tone-bank index for a touched bar: its position mapped
/// proportionally onto the scale.
pub open spec fn tone_index_spec(position: usize, len: usize) -> int {
    (position * TONE_SCALE) / (len as int)
}

/// What one pacing iteration asks of the host: whether it presented (and
/// must yield) a frame, and whether the wait loop is over.
#[derive(Clone, Copy, Debug, PartialEq, Eq, Structural)]
pub struct TickResult {
    pub presented: bool,
    pub stop: bool,
}

/// The visual, audible medium: the bar buffer together with running
/// counters, live-tunable timing and pause state, the most recently touched
/// indices, and the audio-throttle clock. Every mutating operation updates
/// the buffer and the counters here; the host drives one pacing step per
/// operation through [`GuiVec::draw_tick`] and [`GuiVec::audio_step`],
/// which decide everything while the host only renders, yields frames,
/// reads input and plays tones.
#[derive(Clone, Debug)]
pub struct GuiVec {
    /// The bar buffer; its length is fixed at construction.
    pub list: Vec<Bar>,
    /// The construction-time length of the buffer.
    pub initial_size: usize,
    /// Running count of array reads.
    pub reads: u64,
    /// Running count of array writes.
    pub writes: u64,
    /// Running count of ordering comparisons.
    pub comps: u64,
    /// Whether the user has requested a pause.
    pub is_paused: bool,
    /// The effective delay, in milliseconds, each pacing step waits for.
    pub delay: u64,
    /// The cooperative-cancellation flag; set by the user's exit action.
    pub done: bool,
    /// How many logical operations may elapse before a frame is presented.
    pub render_skip: i32,
    /// How many operations have elapsed since the last presented frame.
    pub skipped: i32,
    /// The most recently touched indices, painted in the highlight color.
    pub last_touched: Vec<usize>,
    /// When the last tone was played, in milliseconds.
    pub last_played: u64,
    /// The size of the tone bank the host pre-renders at construction.
    pub tone_count: usize,
}

impl SortingList for GuiVec {
    open spec fn bars(&self) -> Seq<Bar> {
        self.list@
    }

    open spec fn wf(&self) -> bool {
        &&& self.list@.len() == self.initial_size
        &&& self.initial_size * 1000 <= usize::MAX
        &&& forall|i: int|
            0 <= i < self.list@.len() ==> (#[trigger] self.list@[i]).position <= self.list@.len()
        &&& self.tone_count == TONE_COUNT
    }

    open spec fn instrumented(&self) -> bool {
        true
    }

    open spec fn read_count(&self) -> int {
        self.reads as int
    }

    open spec fn write_count(&self) -> int {
        self.writes as int
    }

    open spec fn comp_count(&self) -> int {
        self.comps as int
    }

    open spec fn touched(&self) -> Seq<usize> {
        self.last_touched@
    }

    open spec fn done_flag(&self) -> bool {
        self.done
    }

    open spec fn delay_setting(&self) -> u64 {
        self.delay
    }

    open spec fn room(&self, n: int) -> bool {
        &&& self.reads + n <= u64::MAX
        &&& self.writes + n <= u64::MAX
        &&& self.comps + n <= u64::MAX
    }

    open spec fn accepts(&self, b: Bar) -> bool {
        b.position <= self.list@.len()
    }

    fn new(length: usize, delay: u64) -> (r: Self)
        ensures
            r.delay == delay,
            !r.is_paused,
            r.render_skip == 1,
            r.skipped == 0,
            r.last_played == 0,
            r.initial_size == length,
            r.tone_count == TONE_COUNT,
    {
        let mut list: Vec<Bar> = Vec::new();
        let mut i: usize = 0;
        while i < length
            invariant
                i <= length,
                list@.len() == i,
                length <= usize::MAX / 1000,
                forall|j: int|
                    0 <= j < i ==> list@[j] == (Bar {
                        position: (j + 1) as usize,
                        hue_num: (j + 1) as usize,
                        hue_den: length,
                    }),
            decreases length - i,
        {
            list.push(Bar::new(i + 1, i + 1, length));
            i = i + 1;
        }
        GuiVec {
            list,
            initial_size: length,
            reads: 0,
            writes: 0,
            comps: 0,
            is_paused: false,
            delay,
            done: false,
            render_skip: 1,
            skipped: 0,
            last_touched: Vec::new(),
            last_played: 0,
            tone_count: TONE_COUNT,
        }
    }

    fn len(&self) -> (r: usize) {
        self.list.len()
    }

    fn swap(&mut self, index1: usize, index2: usize) -> (done: bool)
        ensures
            final(self).pacing_unchanged(old(self)),
    {
        self.reads = self.reads + 2;
        self.writes = self.writes + 2;
        let a = self.list[index1];
        let b = self.list[index2];
        self.list.set(index1, b);
        self.list.set(index2, a);
        self.last_touched.clear();
        self.last_touched.push(index1);
        self.last_touched.push(index2);
        proof {
            lemma_swap_to_multiset(old(self).list@, index1 as int, index2 as int);
            assert(self.last_touched@ =~= seq![index1, index2]);
        }
        self.done
    }

    fn randomize(&mut self)
        ensures
            final(self).pacing_unchanged(old(self)),
    {
        shuffle_bars(&mut self.list);
        proof {
            broadcast use vstd::seq_lib::group_to_multiset_ensures;

            assert forall|i: int|
                0 <= i < self.list@.len() implies (#[trigger] self.list@[i]).position
                <= self.list@.len() by {
                let b = self.list@[i];
                assert(self.list@.contains(b));
                assert(self.list@.to_multiset().count(b) > 0);
                assert(old(self).list@.contains(b));
                let j = choose|j: int| 0 <= j < old(self).list@.len() && old(self).list@[j] == b;
                assert(old(self).list@[j].position <= old(self).list@.len());
            };
        }
    }

    fn elements(&self) -> (r: &Vec<Bar>) {
        &self.list
    }

    fn get(&mut self, i: usize) -> (r: Bar)
        ensures
            final(self).pacing_unchanged(old(self)),
    {
        self.reads = self.reads + 1;
        self.last_touched.clear();
        self.last_touched.push(i);
        proof {
            assert(self.last_touched@ =~= seq![i]);
        }
        self.list[i]
    }

    fn lessThan(&mut self, a: usize, b: usize) -> (r: bool)
        ensures
            final(self).pacing_unchanged(old(self)),
    {
        self.comps = self.comps + 1;
        let x = self.get(a);
        let y = self.get(b);
        x.position < y.position
    }

    fn lessThanEqual(&mut self, a: usize, b: usize) -> (r: bool)
        ensures
            final(self).pacing_unchanged(old(self)),
    {
        self.comps = self.comps + 1;
        let x = self.get(a);
        x.position <= b
    }

    fn isSorted(&mut self) -> (r: bool)
        ensures
            final(self).pacing_unchanged(old(self)),
    {
        let n = self.list.len();
        self.reads = self.reads + (n as u64);
        let mut prev: usize = 0;
        let mut k: usize = 0;
        while k < self.list.len()
            invariant
                k <= self.list@.len(),
                prev == if k == 0 {
                    0usize
                } else {
                    self.list@[k - 1].position
                },
                forall|i: int, j: int|
                    0 <= i <= j < k ==> self.list@[i].position <= self.list@[j].position,
            decreases self.list@.len() - k,
        {
            let bar = self.list[k];
            if bar.position < prev {
                assert(!sorted_bars(self.list@));
                return false;
            }
            prev = bar.position;
            k = k + 1;
        }
        true
    }

    fn set(&mut self, i: usize, elem: Bar) -> (done: bool)
        ensures
            final(self).pacing_unchanged(old(self)),
    {
        self.reads = self.reads + 1;
        self.writes = self.writes + 1;
        self.list.set(i, elem);
        self.last_touched.clear();
        self.last_touched.push(i);
        proof {
            assert(self.last_touched@ =~= seq![i]);
        }
        self.done
    }

    fn getListClone(&self) -> (r: Vec<Bar>) {
        let mut out: Vec<Bar> = Vec::new();
        let mut k: usize = 0;
        while k < self.list.len()
            invariant
                k <= self.list@.len(),
                out@ == self.list@.take(k as int),
            decreases self.list@.len() - k,
        {
            out.push(self.list[k]);
            proof {
                assert(out@ =~= self.list@.take(k + 1));
            }
            k = k + 1;
        }
        proof {
            assert(self.list@.take(self.list@.len() as int) =~= self.list@);
        }
        out
    }
}

impl GuiVec {
    /// The live-tunable timing and feedback state is owned by the user's
    /// controls, never by the algorithm: buffer operations leave it alone.
    pub open spec fn pacing_unchanged(&self, o: &GuiVec) -> bool {
        &&& self.is_paused == o.is_paused
        &&& self.delay == o.delay
        &&& self.render_skip == o.render_skip
        &&& self.skipped == o.skipped
        &&& self.last_played == o.last_played
        &&& self.initial_size == o.initial_size
        &&& self.tone_count == o.tone_count
    }

    /// One iteration of the pacing loop that every mutating operation drives
    /// before returning. The host reads the immediate-mode controls and the
    /// elapsed time and performs the rendering, the frame yield and nothing
    /// else; this decides everything: whether this tick presents a frame or
    /// is skipped, the exit and pause actions, the re-parse of the two live
    /// text fields with their documented fallbacks, and whether the
    /// accumulated wait has reached the effective delay so the operation may
    /// return to the algorithm.
    pub fn draw_tick(
        &mut self,
        exit_pressed: bool,
        pause_pressed: bool,
        delay_text: &[u8],
        steps_text: &[u8],
        frames_ms: u64,
    ) -> (r: TickResult)
        requires
            old(self).skipped < i32::MAX,
        ensures
            final(self).list@ == old(self).list@,
            final(self).initial_size == old(self).initial_size,
            final(self).reads == old(self).reads,
            final(self).writes == old(self).writes,
            final(self).comps == old(self).comps,
            final(self).last_touched@ == old(self).last_touched@,
            final(self).last_played == old(self).last_played,
            final(self).tone_count == old(self).tone_count,
            old(self).skipped >= old(self).render_skip && exit_pressed ==> {
                &&& final(self).done
                &&& r.stop
                &&& !r.presented
                &&& final(self).skipped == old(self).skipped
                &&& final(self).render_skip == old(self).render_skip
                &&& final(self).delay == old(self).delay
                &&& final(self).is_paused == old(self).is_paused
            },
            old(self).skipped >= old(self).render_skip && !exit_pressed ==> {
                &&& final(self).done == old(self).done
                &&& final(self).is_paused == (old(self).is_paused != pause_pressed)
                &&& final(self).render_skip == effective_steps(steps_text@)
                &&& final(self).delay == effective_delay(delay_text@, final(self).is_paused)
                &&& final(self).skipped == 0
                &&& r.presented
                &&& r.stop == (frames_ms >= final(self).delay && !final(self).done)
            },
            old(self).skipped < old(self).render_skip ==> {
                &&& final(self).done == old(self).done
                &&& final(self).is_paused == old(self).is_paused
                &&& final(self).render_skip == old(self).render_skip
                &&& final(self).delay == old(self).delay
                &&& final(self).skipped == old(self).skipped + 1
                &&& !r.presented
                &&& r.stop == (frames_ms >= final(self).delay && !final(self).done)
            },
    {
        let mut presented = false;
        if self.skipped >= self.render_skip {
            if exit_pressed {
                self.done = true;
                return TickResult { presented: false, stop: true };
            }
            if pause_pressed {
                self.is_paused = !self.is_paused;
            }
            self.render_skip = match parse_i32(steps_text) {
                Some(a) => a,
                None => 1,
            };
            self.delay = if self.is_paused {
                u64::MAX
            } else {
                match parse_u64(delay_text) {
                    Some(a) => a,
                    None => u64::MAX,
                }
            };
            self.skipped = 0;
            presented = true;
        } else {
            self.skipped = self.skipped + 1;
        }
        let stop = frames_ms >= self.delay && !self.done;
        TickResult { presented, stop }
    }

    /// The throttled audio-feedback step performed after a mutating
    /// operation touches the bar whose key is `touched_position`. If at
    /// least the throttle window has elapsed since the last playback, the
    /// tone to play is the touched position mapped proportionally onto the
    /// tone bank, and the throttle clock is reset to `now_ms`; inside the
    /// window nothing is played, so operations far faster than audible tones
    /// still give a representative pulse of sound without flooding.
    pub fn audio_step(&mut self, touched_position: usize, now_ms: u64) -> (r: Option<usize>)
        requires
            old(self).wf(),
            old(self).list@.len() > 0,
            touched_position <= old(self).list@.len(),
        ensures
            final(self).list@ == old(self).list@,
            final(self).initial_size == old(self).initial_size,
            final(self).reads == old(self).reads,
            final(self).writes == old(self).writes,
            final(self).comps == old(self).comps,
            final(self).is_paused == old(self).is_paused,
            final(self).delay == old(self).delay,
            final(self).done == old(self).done,
            final(self).render_skip == old(self).render_skip,
            final(self).skipped == old(self).skipped,
            final(self).last_touched@ == old(self).last_touched@,
            final(self).tone_count == old(self).tone_count,
            now_ms >= old(self).last_played + THROTTLE_MS ==> {
                &&& r == Some(tone_index_spec(touched_position, old(self).list@.len() as usize)
                    as usize)
                &&& r->Some_0 < TONE_COUNT
                &&& final(self).last_played == now_ms
            },
            now_ms < old(self).last_played + THROTTLE_MS ==> {
                &&& r is None
                &&& final(self).last_played == old(self).last_played
            },
    {
        if now_ms >= THROTTLE_MS && now_ms - THROTTLE_MS >= self.last_played {
            let len = self.list.len();
            assert(touched_position * TONE_SCALE <= usize::MAX) by {
                assert(touched_position * 1000 <= len * 1000) by (nonlinear_arith)
                    requires
                        touched_position <= len,
                ;
            };
            let idx = touched_position * TONE_SCALE / len;
            proof {
                broadcast use vstd::arithmetic::div_mod::lemma_div_is_ordered;

                assert(touched_position * 1000 <= len * 1000) by (nonlinear_arith)
                    requires
                        touched_position <= len,
                ;
                vstd::arithmetic::div_mod::lemma_div_by_multiple(1000, len as int);
                assert((len as int * 1000) / (len as int) == 1000);
                assert(idx <= 1000);
            }
            self.last_played = now_ms;
            Some(idx)
        } else {
            None
        }
    }
}

} // verus!
