//! Behavioural tests of the FIFO queue, the ratio estimator and the
//! resampler façade.

use gb_rs::resampler::fifo::Fifo;
use gb_rs::resampler::worker::{AsyncResampler, WorkerAction, WorkerEvent};
use gb_rs::resampler::{Async, Resampler, Sample, Training, FIFO_CAPACITY, RATIO_ONE};

#[test]
fn fifo_pops_in_push_order() {
    let mut fifo: Fifo<i16> = Fifo::new(8);

    assert!(fifo.push(1));
    assert!(fifo.push(2));
    assert!(fifo.push(3));

    assert_eq!(fifo.pop(), Some(1));
    assert_eq!(fifo.pop(), Some(2));
    assert_eq!(fifo.pop(), Some(3));
    assert_eq!(fifo.pop(), None);
}

#[test]
fn fifo_push_at_capacity_changes_nothing() {
    let mut fifo: Fifo<i16> = Fifo::new(2);

    assert!(fifo.push(10));
    assert!(fifo.push(20));
    assert_eq!(fifo.len(), 2);

    assert!(!fifo.push(30));
    assert_eq!(fifo.len(), 2);
    assert_eq!(fifo.pop(), Some(10));
    assert_eq!(fifo.pop(), Some(20));
    assert_eq!(fifo.pop(), None);
}

#[test]
fn fifo_pop_frees_room_for_a_blocked_push() {
    let mut fifo: Fifo<i16> = Fifo::new(2);
    fifo.push(1);
    fifo.push(2);

    assert!(!fifo.push(3));
    assert_eq!(fifo.pop(), Some(1));
    assert!(fifo.push(3));
    assert_eq!(fifo.pop(), Some(2));
    assert_eq!(fifo.pop(), Some(3));
}

#[test]
fn fill_on_a_fresh_resampler_yields_zeroes() {
    let mut shared: Async<i16> = Async::new(131072, 48000);
    let mut front: Resampler<i16> = Resampler::new();

    let mut buf: Vec<i16> = vec![99; 5];
    front.fill_buf(&mut shared, &mut buf);

    assert_eq!(buf, vec![0; 5]);
    assert_eq!(shared.out_samples(), 5);
    assert_eq!(front.last_sample(), 0);
}

#[test]
fn underrun_repeats_the_last_delivered_sample() {
    let mut shared: Async<i16> = Async::new(131072, 48000);
    let mut front: Resampler<i16> = Resampler::new();

    assert_eq!(shared.push_up_to(7, 2), 2);

    let mut buf: Vec<i16> = vec![0; 5];
    front.fill_buf(&mut shared, &mut buf);

    assert_eq!(buf, vec![7, 7, 7, 7, 7]);
    assert_eq!(front.last_sample(), 7);
}

#[test]
fn fill_drains_the_queue_head_first() {
    let mut shared: Async<i16> = Async::new(131072, 48000);
    let mut front: Resampler<i16> = Resampler::new();

    shared.push_up_to(3, 1);
    shared.push_up_to(4, 1);
    shared.push_up_to(5, 1);

    let mut buf: Vec<i16> = vec![0; 2];
    front.fill_buf(&mut shared, &mut buf);

    assert_eq!(buf, vec![3, 4]);
    assert_eq!(shared.fifo_len(), 1);
    assert_eq!(front.last_sample(), 4);
}

#[test]
fn out_samples_counts_every_requested_slot() {
    let mut shared: Async<i16> = Async::new(131072, 48000);
    let mut front: Resampler<i16> = Resampler::new();

    let mut buf3: Vec<i16> = vec![0; 3];
    let mut buf4: Vec<i16> = vec![0; 4];
    front.fill_buf(&mut shared, &mut buf3);
    front.fill_buf(&mut shared, &mut buf4);

    assert_eq!(shared.out_samples(), 7);
}

#[test]
fn training_discards_adopts_then_smooths() {
    let mut shared: Async<i16> = Async::new(131072, 48000);
    let mut front: Resampler<i16> = Resampler::new();
    let mut half_k: Vec<i16> = vec![0; 500];

    assert_eq!(shared.training(), Training::Init(2));

    // Two measurements are startup noise: discarded, ratio untouched.
    let seeded = shared.ratio();
    front.fill_buf(&mut shared, &mut half_k);
    shared.adjust_resampling(111);
    assert_eq!(shared.training(), Training::Init(1));
    assert_eq!(shared.ratio(), seeded);

    let mut half_k = vec![0; 500];
    front.fill_buf(&mut shared, &mut half_k);
    shared.adjust_resampling(222);
    assert_eq!(shared.training(), Training::Measure);
    assert_eq!(shared.ratio(), seeded);

    // The third measurement is adopted verbatim: 1000 / 500 = 2.0.
    let mut half_k = vec![0; 500];
    front.fill_buf(&mut shared, &mut half_k);
    shared.adjust_resampling(1000);
    assert_eq!(shared.training(), Training::Adjust);
    assert_eq!(shared.ratio(), 2 * RATIO_ONE);

    // The fourth moves a tenth of the way: 2.0 + (2.4 - 2.0) / 10 = 2.04.
    let mut half_k = vec![0; 500];
    front.fill_buf(&mut shared, &mut half_k);
    shared.adjust_resampling(1200);
    assert_eq!(shared.training(), Training::Adjust);
    assert_eq!(shared.ratio(), 2_040_000);
}

#[test]
fn degenerate_adjustment_changes_nothing() {
    let mut shared: Async<i16> = Async::new(131072, 65536);

    let ratio = shared.ratio();
    let training = shared.training();
    assert_eq!(shared.out_samples(), 0);

    shared.adjust_resampling(12345);

    assert_eq!(shared.ratio(), ratio);
    assert_eq!(shared.training(), training);
    assert_eq!(shared.out_samples(), 0);
}

#[test]
fn seeded_ratio_is_the_rate_quotient() {
    let shared: Async<i16> = Async::new(131072, 65536);
    assert_eq!(shared.ratio(), 2 * RATIO_ONE);

    let shared: Async<i16> = Async::new(131072, 48000);
    assert_eq!(shared.ratio(), 131072u64 * RATIO_ONE / 48000);
}

#[test]
fn emit_count_duplicates_when_ratio_above_one() {
    let mut worker = AsyncResampler::new();

    // ratio 2.5: alternating 2 and 3 copies, on average 2.5 per input.
    assert_eq!(worker.emit_count(2_500_000), 2);
    assert_eq!(worker.emit_count(2_500_000), 3);
    assert_eq!(worker.emit_count(2_500_000), 2);
}

#[test]
fn emit_count_decimates_when_ratio_below_one() {
    let mut worker = AsyncResampler::new();

    // ratio 0.5: every other input sample is dropped.
    assert_eq!(worker.emit_count(500_000), 0);
    assert_eq!(worker.emit_count(500_000), 1);
    assert_eq!(worker.emit_count(500_000), 0);
    assert_eq!(worker.emit_count(500_000), 1);
}

#[test]
fn push_up_to_stops_at_capacity() {
    let mut shared: Async<i16> = Async::new(131072, 48000);

    assert_eq!(shared.push_up_to(1, 3), 3);
    assert_eq!(shared.fifo_len(), 3);

    let room = (FIFO_CAPACITY - 3) as u64;
    assert_eq!(shared.push_up_to(2, u64::MAX), room);
    assert_eq!(shared.fifo_len(), FIFO_CAPACITY);

    assert_eq!(shared.push_up_to(3, 5), 0);
    assert_eq!(shared.fifo_len(), FIFO_CAPACITY);
}

#[test]
fn saturating_conversion_clamps_both_ends() {
    assert_eq!(<i16 as Sample>::from_source(40_000), i16::MAX);
    assert_eq!(<i16 as Sample>::from_source(-40_000), i16::MIN);
    assert_eq!(<i16 as Sample>::from_source(1234), 1234);
    assert_eq!(<i16 as Sample>::zero(), 0);

    assert_eq!(<u8 as Sample>::from_source(-5), 0);
    assert_eq!(<u8 as Sample>::from_source(300), 255);
    assert_eq!(<u8 as Sample>::from_source(77), 77);
    assert_eq!(<u8 as Sample>::zero(), 0);
}

#[test]
fn closed_channel_means_exit() {
    match gb_rs::resampler::worker::on_event(WorkerEvent::Closed) {
        WorkerAction::Exit => (),
        WorkerAction::Resample(_) => panic!("a closed channel must end the worker"),
    }

    match gb_rs::resampler::worker::on_event(WorkerEvent::Batch(vec![1, 2, 3])) {
        WorkerAction::Resample(samples) => assert_eq!(samples, vec![1, 2, 3]),
        WorkerAction::Exit => panic!("a batch must be resampled"),
    }
}

#[test]
fn fill_longer_than_the_queue_repeats_the_tail() {
    let mut shared: Async<i16> = Async::new(131072, 48000);
    let mut front: Resampler<i16> = Resampler::new();

    shared.push_up_to(8, 1);
    shared.push_up_to(9, 1);

    let mut buf: Vec<i16> = vec![0; 4];
    front.fill_buf(&mut shared, &mut buf);

    assert_eq!(buf, vec![8, 9, 9, 9]);
    assert_eq!(shared.fifo_len(), 0);
}

#[test]
fn empty_fill_requests_nothing() {
    let mut shared: Async<i16> = Async::new(131072, 48000);
    let mut front: Resampler<i16> = Resampler::new();

    let mut buf: Vec<i16> = Vec::new();
    front.fill_buf(&mut shared, &mut buf);

    assert!(buf.is_empty());
    assert_eq!(shared.out_samples(), 0);
    assert_eq!(front.last_sample(), 0);
}
