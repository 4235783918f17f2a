//! Adaptive sample-rate converter bridging the emulated sound source and the
//! host audio output.
//!
//! The source produces samples at a fixed nominal rate; the output pulls
//! them at its own free-running rate. No common clock exists, so the
//! resampling ratio is measured continuously from observed throughput and
//! re-tuned live. The shared state below bundles the sample queue, the
//! throughput counter, the current ratio and the training state machine; the
//! surrounding program guards it with exactly one mutual-exclusion lock and
//! one condition variable, and runs the worker that drains the hand-off
//! channel on its own thread.
//!
//! The ratio is held in fixed point: `RATIO_ONE` units stand for a ratio of
//! one source sample per output sample. Computed ratios are floored at one
//! unit, the smallest positive step, so the ratio stays positive.

use vstd::prelude::*;

use vstd::arithmetic::div_mod::{lemma_div_is_ordered, lemma_div_nonincreasing};

use crate::resampler::fifo::Fifo;

pub mod fifo;
pub mod worker;

verus! {

/// Fixed-point scale of the resampling ratio: this many units are a ratio
/// of exactly one.
pub const RATIO_ONE: u64 = 1_000_000;

/// Constant used to smooth resampling ratio adjustments
pub const RATIO_AVERAGE_SMOOTH: u64 = 10;

/// Largest ratio any measurement can produce: a whole adjustment period's
/// source samples (at most the counter's maximum, `u32::MAX`) against a
/// single output sample, in fixed-point units.
pub const RATIO_MAX: u64 = 4_294_967_295_000_000;

/// How many converted samples the queue between the worker and the output
/// callback holds at most.
pub const FIFO_CAPACITY: usize = 0x800;

/// One batch of samples from the source, in production order.
pub type SampleBuffer = Vec<i32>;

/// An output sample type: a numeric width with a defined zero value and a
/// defined saturating conversion from source samples.
pub trait Sample: Copy {
    /// The value standing for silence, delivered before any sample arrived.
    spec fn spec_zero() -> Self;

    /// The saturating conversion from a source sample.
    spec fn spec_from_source(v: i32) -> Self;

    /// The value standing for silence.
    fn zero() -> (r: Self)
        ensures
            r == Self::spec_zero(),
    ;

    /// Convert one source sample, saturating at this type's bounds.
    fn from_source(v: i32) -> (r: Self)
        ensures
            r == Self::spec_from_source(v),
    ;
}

impl Sample for i16 {
    open spec fn spec_zero() -> i16 {
        0
    }

    open spec fn spec_from_source(v: i32) -> i16 {
        if v < i16::MIN as i32 {
            i16::MIN
        } else if v > i16::MAX as i32 {
            i16::MAX
        } else {
            v as i16
        }
    }

    fn zero() -> i16 {
        0
    }

    fn from_source(v: i32) -> i16 {
        if v < i16::MIN as i32 {
            i16::MIN
        } else if v > i16::MAX as i32 {
            i16::MAX
        } else {
            v as i16
        }
    }
}

impl Sample for u8 {
    open spec fn spec_zero() -> u8 {
        0
    }

    open spec fn spec_from_source(v: i32) -> u8 {
        if v < 0 {
            0
        } else if v > 0xff {
            0xff
        } else {
            v as u8
        }
    }

    fn zero() -> u8 {
        0
    }

    fn from_source(v: i32) -> u8 {
        if v < 0 {
            0
        } else if v > 0xff {
            0xff
        } else {
            v as u8
        }
    }
}

/// Sample Rate training
#[derive(Clone, Copy, Debug, PartialEq, Eq, Structural)]
pub enum Training {
    /// We're starting, the measured sample rate is probably not
    /// trustworthy: this many measurements are still to be discarded.
    Init(u8),
    /// We're taking the next measured sample rate as our estimate
    Measure,
    /// We're adjusting the measured sample rate incrementally
    Adjust,
}

/// The shared state as the contracts speak of it: the queue's contents, its
/// capacity, the throughput counter, the fixed-point ratio and the training
/// state.
pub struct AsyncView<T> {
    /// Contents of the sample queue, head first.
    pub fifo: Seq<T>,
    /// Capacity of the sample queue.
    pub capacity: nat,
    /// Output samples requested since the last adjustment.
    pub out_samples: nat,
    /// Resampling ratio, in units of `RATIO_ONE`.
    pub ratio: nat,
    /// Training state.
    pub training: Training,
}

/// A ratio floored at the smallest positive fixed-point step.
pub open spec fn ratio_floor(r: int) -> nat {
    if r < 1 {
        1nat
    } else {
        r as nat
    }
}

/// The ratio one adjustment measures: source samples produced against
/// output samples requested since the last adjustment, in fixed-point
/// units, floored at the smallest positive step.
pub open spec fn measured_ratio(in_samples: nat, out_samples: nat) -> nat
    recommends
        out_samples > 0,
{
    ratio_floor(((in_samples as int) * (RATIO_ONE as int)) / (out_samples as int))
}

/// One smoothing step: the ratio moves toward the measurement `r` by a
/// tenth of the gap, the gap's division rounding toward zero.
pub open spec fn smoothed_ratio(ratio: nat, r: nat) -> nat {
    if r >= ratio {
        (ratio + (r - ratio) / (RATIO_AVERAGE_SMOOTH as int)) as nat
    } else {
        (ratio - (ratio - r) / (RATIO_AVERAGE_SMOOTH as int)) as nat
    }
}

/// What one adjustment call does to the shared state. A call that found the
/// counter at zero is degenerate: it changes nothing, so no division by
/// zero can corrupt the ratio. Otherwise the counter resets and the
/// training machine consumes the measured ratio: `Init` discards it and
/// counts down, `Measure` adopts it verbatim, `Adjust` smooths it in.
pub open spec fn spec_adjust<T>(s: AsyncView<T>, in_samples: nat) -> AsyncView<T> {
    if s.out_samples == 0 {
        s
    } else {
        let r = measured_ratio(in_samples, s.out_samples);
        match s.training {
            Training::Init(c) => AsyncView {
                out_samples: 0,
                training: if c > 1 {
                    Training::Init((c - 1) as u8)
                } else {
                    Training::Measure
                },
                ..s
            },
            Training::Measure => AsyncView {
                out_samples: 0,
                ratio: r,
                training: Training::Adjust,
                ..s
            },
            Training::Adjust => AsyncView {
                out_samples: 0,
                ratio: smoothed_ratio(s.ratio, r),
                ..s
            },
        }
    }
}

/// The queue after `n` samples were drained from its head.
pub open spec fn drained<T>(q: Seq<T>, n: nat) -> Seq<T> {
    if n < q.len() {
        q.skip(n as int)
    } else {
        Seq::empty()
    }
}

/// What one fill of `n` output slots does to the shared state: the queue
/// loses up to `n` samples from its head and the throughput counter grows
/// by `n` — missed samples count, they measure demand.
pub open spec fn spec_fill<T>(s: AsyncView<T>, n: nat) -> AsyncView<T> {
    AsyncView { fifo: drained(s.fifo, n), out_samples: (s.out_samples + n) as nat, ..s }
}

/// The `n` samples one fill delivers: the queue's head as long as the queue
/// lasts, each delivered sample becoming the fallback that masks the
/// underrun once the queue is empty.
pub open spec fn fill_out<T>(fifo: Seq<T>, last: T, n: nat) -> Seq<T>
    decreases n,
{
    if n == 0 {
        Seq::empty()
    } else {
        let head = if fifo.len() > 0 {
            fifo[0]
        } else {
            last
        };
        let rest = if fifo.len() > 0 {
            fifo.drop_first()
        } else {
            fifo
        };
        seq![head] + fill_out(rest, head, (n - 1) as nat)
    }
}

/// The fallback value a fill of `n` slots leaves behind: the last delivered
/// sample, or the old fallback when nothing was delivered.
pub open spec fn fill_last<T>(fifo: Seq<T>, last: T, n: nat) -> T
    decreases n,
{
    if n == 0 {
        last
    } else {
        let head = if fifo.len() > 0 {
            fifo[0]
        } else {
            last
        };
        let rest = if fifo.len() > 0 {
            fifo.drop_first()
        } else {
            fifo
        };
        fill_last(rest, head, (n - 1) as nat)
    }
}

/// State shared between the main thread, the audio callback and the
/// resampling worker thread. The surrounding program wraps it in one
/// mutual-exclusion lock paired with one condition variable; every method
/// below is called with that lock held.
pub struct Async<T> {
    /// FIFO of converted samples waiting for the output.
    fifo: Fifo<T>,
    /// Number of samples requested by the backend since the last
    /// adjustment (even missed samples in case of empty FIFO
    /// count!). Used to compute the average output sample rate.
    out_samples: u32,
    /// Sampling ratio: emulator sampling rate / target sampling
    /// rate, in units of `RATIO_ONE`. Will be adjusted at runtime based
    /// on the computed average sample rate.
    ratio: u64,
    /// Resampling ratio estimation state machine
    training: Training,
}

impl<T> View for Async<T> {
    type V = AsyncView<T>;

    closed spec fn view(&self) -> AsyncView<T> {
        AsyncView {
            fifo: self.fifo@,
            capacity: self.fifo.cap(),
            out_samples: self.out_samples as nat,
            ratio: self.ratio as nat,
            training: self.training,
        }
    }
}

impl<T: Sample> Async<T> {
    /// The state's invariant: the queue respects its fixed capacity, the
    /// ratio is positive and bounded by what a measurement can produce, and
    /// an `Init` countdown has at least one step left.
    pub closed spec fn wf(self) -> bool {
        &&& self.fifo.wf()
        &&& self.fifo.cap() == FIFO_CAPACITY
        &&& 1 <= self.ratio <= RATIO_MAX
        &&& match self.training {
            Training::Init(c) => c >= 1,
            _ => true,
        }
    }

    /// What the invariant guarantees of the visible state: the ratio stays
    /// positive (and bounded), the queue never exceeds its capacity, and an
    /// `Init` countdown never reaches zero.
    pub proof fn lemma_invariant(&self)
        requires
            self.wf(),
        ensures
            1 <= self@.ratio <= RATIO_MAX,
            self@.fifo.len() <= self@.capacity,
            self@.capacity == FIFO_CAPACITY,
            self@.training matches Training::Init(c) ==> c >= 1,
    {
    }

    /// Fresh shared state, seeded with the educated guess
    /// `source_rate / rate` for the ratio (floored at the smallest positive
    /// step): it is just used while starting up, replaced by the measured
    /// ratio soon enough. Two measurements will be discarded first.
    pub fn new(source_rate: u32, rate: u32) -> (r: Async<T>)
        requires
            rate >= 1,
        ensures
            r.wf(),
            r@.fifo == Seq::<T>::empty(),
            r@.capacity == FIFO_CAPACITY,
            r@.out_samples == 0,
            r@.ratio == ratio_floor(((source_rate as int) * (RATIO_ONE as int)) / (rate as int)),
            r@.training == Training::Init(2),
    {
        let scaled: u64 = (source_rate as u64) * RATIO_ONE;
        let raw: u64 = scaled / (rate as u64);
        let ratio: u64 = if raw < 1 {
            1
        } else {
            raw
        };

        proof {
            lemma_div_nonincreasing(scaled as int, rate as int);
        }

        Async { fifo: Fifo::new(FIFO_CAPACITY), out_samples: 0, ratio, training: Training::Init(2) }
    }

    /// The current resampling ratio, in units of `RATIO_ONE`.
    pub fn ratio(&self) -> (r: u64)
        requires
            self.wf(),
        ensures
            r == self@.ratio,
            1 <= r <= RATIO_MAX,
    {
        self.ratio
    }

    /// Output samples requested since the last adjustment.
    pub fn out_samples(&self) -> (r: u32)
        ensures
            r == self@.out_samples,
    {
        self.out_samples
    }

    /// The training machine's current state.
    pub fn training(&self) -> (r: Training)
        ensures
            r == self@.training,
    {
        self.training
    }

    /// How many samples the queue holds.
    pub fn fifo_len(&self) -> (n: usize)
        ensures
            n == self@.fifo.len(),
    {
        self.fifo.len()
    }

    /// Adjust the resampling ratio. `in_samples` is the number of
    /// samples generated by the emulator since the last adjustment
    /// (counting even the samples potentially dropped in case of a
    /// FIFO overflow). This call resets the internal sample counter.
    ///
    /// A call that finds the counter at zero is degenerate and changes
    /// nothing: the ratio is never corrupted by a division by zero.
    pub fn adjust_resampling(&mut self, in_samples: u32)
        requires
            old(self).wf(),
        ensures
            final(self).wf(),
            final(self)@ == spec_adjust(old(self)@, in_samples as nat),
    {
        let out_samples = self.out_samples;

        if out_samples == 0 {
            return ;
        }
        // Reset the atomic counter
        self.out_samples = 0;

        // Compute the resampling factor since the last adjust, floored at
        // the smallest positive step so the ratio stays positive
        let scaled: u64 = (in_samples as u64) * RATIO_ONE;
        let raw: u64 = scaled / (out_samples as u64);
        let r: u64 = if raw < 1 {
            1
        } else {
            raw
        };

        proof {
            lemma_div_nonincreasing(scaled as int, out_samples as int);
        }

        match self.training {
            Training::Init(c) => {
                // We're just starting, ignore the current measure and
                // wait for the next
                let c = c - 1;

                self.training = if c > 0 {
                    Training::Init(c)
                } else {
                    Training::Measure
                };
            },
            Training::Measure => {
                // Our first real sample, let's use this value directly
                self.ratio = r;
                self.training = Training::Adjust;
            },
            Training::Adjust => {
                // Avoid brutal sample rate changes by dividing the
                // delta. That way sudden spikes will be smoothed out
                // and long term tendencies will settle in
                // progressively
                if r >= self.ratio {
                    let delta = (r - self.ratio) / RATIO_AVERAGE_SMOOTH;

                    proof {
                        lemma_div_nonincreasing((r - self.ratio) as int,
                            RATIO_AVERAGE_SMOOTH as int);
                    }

                    self.ratio = self.ratio + delta;
                } else {
                    let delta = (self.ratio - r) / RATIO_AVERAGE_SMOOTH;

                    proof {
                        lemma_div_is_ordered((self.ratio - r) as int,
                            (self.ratio - 1) as int, RATIO_AVERAGE_SMOOTH as int);
                        lemma_div_nonincreasing((self.ratio - 1) as int,
                            RATIO_AVERAGE_SMOOTH as int);
                    }

                    self.ratio = self.ratio - delta;
                }
            },
        }
    }

    /// Store up to `want` copies of `v` at the queue's tail: as many as the
    /// queue has room for. The worker calls this under the lock and blocks
    /// on the condition variable while the count falls short — samples are
    /// never dropped or reordered.
    pub fn push_up_to(&mut self, v: T, want: u64) -> (pushed: u64)
        requires
            old(self).wf(),
        ensures
            final(self).wf(),
            pushed == vstd::math::min(want as int, old(self)@.capacity - old(self)@.fifo.len()),
            final(self)@ == (AsyncView {
                fifo: old(self)@.fifo + Seq::new(pushed as nat, |i: int| v),
                ..old(self)@
            }),
    {
        let mut pushed: u64 = 0;

        while pushed < want && self.fifo.len() < self.fifo.capacity()
            invariant
                self.wf(),
                pushed <= want,
                self@.fifo == old(self)@.fifo + Seq::new(pushed as nat, |i: int| v),
                self@.capacity == old(self)@.capacity,
                self@.out_samples == old(self)@.out_samples,
                self@.ratio == old(self)@.ratio,
                self@.training == old(self)@.training,
            decreases want - pushed,
        {
            let _stored = self.fifo.push(v);
            proof {
                assert(old(self)@.fifo + Seq::new((pushed + 1) as nat, |i: int| v) =~= (old(
                    self,
                )@.fifo + Seq::new(pushed as nat, |i: int| v)).push(v));
            }
            pushed = pushed + 1;
        }
        pushed
    }
}

/// Resampler façade: the object the audio backend's pull callback invokes
/// to fill its output buffer. It keeps the last delivered sample so an
/// underrun repeats it instead of going silent.
pub struct Resampler<T> {
    last_sample: T,
}

impl<T: Sample> View for Resampler<T> {
    type V = T;

    closed spec fn view(&self) -> T {
        self.last_sample
    }
}

impl<T: Sample> Resampler<T> {
    /// A fresh façade: before anything was delivered, underruns yield the
    /// sample type's zero value.
    pub fn new() -> (r: Resampler<T>)
        ensures
            r@ == T::spec_zero(),
    {
        Resampler { last_sample: T::zero() }
    }

    /// The sample an underrun would currently repeat.
    pub fn last_sample(&self) -> (r: T)
        ensures
            r == self@,
    {
        self.last_sample
    }

    /// Fill every slot of `buf`, in order: pop from the queue while it
    /// lasts, repeat the last delivered sample once it is empty (underrun
    /// masking). The whole buffer's length counts toward the throughput
    /// counter — demand is what is measured. Called by the backend with the
    /// shared state's lock held; after it returns the caller signals the
    /// condition variable once to wake a worker blocked on a full queue.
    pub fn fill_buf(&mut self, shared: &mut Async<T>, buf: &mut Vec<T>)
        requires
            old(shared).wf(),
            old(buf)@.len() + old(shared)@.out_samples <= u32::MAX,
        ensures
            final(shared).wf(),
            final(buf)@ == fill_out(old(shared)@.fifo, old(self)@, old(buf)@.len() as nat),
            final(self)@ == fill_last(old(shared)@.fifo, old(self)@, old(buf)@.len() as nat),
            final(shared)@ == spec_fill(old(shared)@, old(buf)@.len() as nat),
    {
        let n = buf.len();
        let ghost f0 = old(shared)@.fifo;
        let ghost l0 = old(self)@;

        let mut i: usize = 0;
        while i < n
            invariant
                i <= n,
                n == buf@.len(),
                shared.wf(),
                shared@.capacity == old(shared)@.capacity,
                shared@.out_samples == old(shared)@.out_samples,
                shared@.ratio == old(shared)@.ratio,
                shared@.training == old(shared)@.training,
                old(shared)@.out_samples + n <= u32::MAX,
                fill_out(f0, l0, n as nat) == buf@.subrange(0, i as int) + fill_out(
                    shared@.fifo,
                    self@,
                    (n - i) as nat,
                ),
                fill_last(f0, l0, n as nat) == fill_last(shared@.fifo, self@, (n - i) as nat),
                drained(f0, n as nat) == drained(shared@.fifo, (n - i) as nat),
            decreases n - i,
        {
            let ghost fifo_before = shared@.fifo;
            let ghost last_before = self@;
            let ghost buf_before = buf@;

            let new_sample = match shared.fifo.pop() {
                Some(s) => s,
                // Fifo is empty, duplicate the last sample
                None => self.last_sample,
            };

            self.last_sample = new_sample;
            buf[i] = new_sample;

            proof {
                // One output slot filled: the spec unfolds one step.
                assert(fill_out(fifo_before, last_before, (n - i) as nat) == seq![new_sample]
                    + fill_out(shared@.fifo, self@, (n - i - 1) as nat));
                assert(buf@.subrange(0, (i + 1) as int) =~= buf_before.subrange(0, i as int)
                    + seq![new_sample]);
                assert(buf_before.subrange(0, i as int) + (seq![new_sample] + fill_out(
                    shared@.fifo,
                    self@,
                    (n - i - 1) as nat,
                )) =~= (buf_before.subrange(0, i as int) + seq![new_sample]) + fill_out(
                    shared@.fifo,
                    self@,
                    (n - i - 1) as nat,
                ));
                assert(drained(fifo_before, (n - i) as nat) =~= drained(
                    shared@.fifo,
                    (n - i - 1) as nat,
                ));
            }

            i = i + 1;
        }

        proof {
            assert(buf@.subrange(0, n as int) =~= buf@);
            assert(drained(shared@.fifo, 0) =~= shared@.fifo);
        }

        shared.out_samples = shared.out_samples + (n as u32);
    }
}

/// Underrun masking: a fill finding the queue empty delivers its fallback
/// value in every slot — the sample type's zero before anything was
/// delivered, the last delivered sample afterwards — and the fallback stays
/// what it was.
pub proof fn lemma_underrun_masking<T>(last: T, n: nat)
    ensures
        fill_out(Seq::<T>::empty(), last, n) == Seq::new(n, |i: int| last),
        fill_last(Seq::<T>::empty(), last, n) == last,
    decreases n,
{
    if n == 0 {
        assert(fill_out(Seq::<T>::empty(), last, n) =~= Seq::new(n, |i: int| last));
    } else {
        lemma_underrun_masking::<T>(last, (n - 1) as nat);
        assert(seq![last] + Seq::new((n - 1) as nat, |i: int| last) =~= Seq::new(
            n,
            |i: int| last,
        ));
    }
}

/// The total number of output slots a run of fills requests.
pub open spec fn total_requested(sizes: Seq<nat>) -> nat
    decreases sizes.len(),
{
    if sizes.len() == 0 {
        0nat
    } else {
        (sizes[0] + total_requested(sizes.drop_first())) as nat
    }
}

/// The shared state a run of fills leaves behind, first fill first.
pub open spec fn fills<T>(s: AsyncView<T>, sizes: Seq<nat>) -> AsyncView<T>
    decreases sizes.len(),
{
    if sizes.len() == 0 {
        s
    } else {
        fills(spec_fill(s, sizes[0]), sizes.drop_first())
    }
}

/// Throughput accounting: any run of fills with no adjustment in between
/// grows the counter by exactly the number of requested samples — from a
/// freshly reset counter, the counter equals that total. The ratio and the
/// training state are untouched.
pub proof fn lemma_throughput_accounting<T>(s: AsyncView<T>, sizes: Seq<nat>)
    ensures
        fills(s, sizes).out_samples == s.out_samples + total_requested(sizes),
        fills(s, sizes).ratio == s.ratio,
        fills(s, sizes).training == s.training,
    decreases sizes.len(),
{
    if sizes.len() > 0 {
        lemma_throughput_accounting(spec_fill(s, sizes[0]), sizes.drop_first());
    }
}

/// Degenerate-call safety: an adjustment that finds the counter at zero
/// leaves the whole state — the ratio and the training state included —
/// unchanged.
pub proof fn lemma_degenerate_adjust<T>(s: AsyncView<T>, in_samples: nat)
    requires
        s.out_samples == 0,
    ensures
        spec_adjust(s, in_samples) == s,
{
}

} // verus!
