//! Asynchronous resampling worker: the long-lived task that drains the
//! hand-off channel from the sound source, converts each batch and pushes
//! the converted samples into the shared queue.
//!
//! The waiting itself — on the channel for the next batch, on the condition
//! variable while the queue is full — happens in the surrounding program.
//! What is decided here: what one channel event means for the worker, and
//! how many output samples each input sample yields under the current
//! ratio.

use vstd::prelude::*;

use crate::resampler::{RATIO_MAX, RATIO_ONE, SampleBuffer};

verus! {

/// One event the hand-off channel hands the worker.
pub enum WorkerEvent {
    /// The source produced a batch of samples.
    Batch(SampleBuffer),
    /// The producer was disposed: the channel is closed, permanently.
    Closed,
}

/// What the worker does with one event.
pub enum WorkerAction {
    /// Resample this batch and push the result into the shared queue.
    Resample(SampleBuffer),
    /// Exit cleanly: a closed channel is the shutdown signal, not an error.
    Exit,
}

/// Clean shutdown rule: a batch is resampled, the closing of the channel —
/// and nothing else — ends the worker.
pub fn on_event(event: WorkerEvent) -> (action: WorkerAction)
    ensures
        match event {
            WorkerEvent::Batch(samples) => action == WorkerAction::Resample(samples),
            WorkerEvent::Closed => action is Exit,
        },
{
    match event {
        WorkerEvent::Batch(samples) => WorkerAction::Resample(samples),
        WorkerEvent::Closed => WorkerAction::Exit,
    }
}

/// The worker's resampling state: the fixed-point phase accumulator that
/// spreads the ratio over successive input samples.
pub struct AsyncResampler {
    /// Fractional progress toward the next output sample, below `RATIO_ONE`.
    phase: u64,
}

impl AsyncResampler {
    /// Fractional progress toward the next output sample.
    pub closed spec fn phase(&self) -> nat {
        self.phase as nat
    }

    /// The accumulator stays below one whole output sample.
    pub open spec fn wf(&self) -> bool {
        self.phase() < RATIO_ONE
    }

    /// A fresh worker: no fractional progress yet.
    pub fn new() -> (r: AsyncResampler)
        ensures
            r.wf(),
            r.phase() == 0,
    {
        AsyncResampler { phase: 0 }
    }

    /// How many output samples the next input sample yields under `ratio`:
    /// the whole part of the accumulated ratio, the fraction staying in the
    /// accumulator. A ratio above one duplicates samples, a ratio below one
    /// decimates them, and on average `ratio` output samples are emitted
    /// per input sample — temporal order is preserved because each input
    /// sample's copies are emitted before the next is looked at.
    pub fn emit_count(&mut self, ratio: u64) -> (n: u64)
        requires
            old(self).wf(),
            1 <= ratio <= RATIO_MAX,
        ensures
            final(self).wf(),
            n == ((old(self).phase() + ratio) as int) / (RATIO_ONE as int),
            final(self).phase() == ((old(self).phase() + ratio) as int) % (RATIO_ONE as int),
            n * (RATIO_ONE as int) + final(self).phase() == old(self).phase() + ratio,
    {
        let total: u64 = self.phase + ratio;
        let n: u64 = total / RATIO_ONE;

        self.phase = total % RATIO_ONE;

        n
    }
}

} // verus!
