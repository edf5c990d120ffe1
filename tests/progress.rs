use hf_progress::{DownloadState, ProgressEvent};
use std::sync::Mutex;
use std::time::{Duration, Instant};

fn percentage(e: &ProgressEvent) -> f32 {
    e.fraction_num as f32 / e.fraction_den as f32
}

fn secs(nanos: u128) -> f32 {
    nanos as f32 / 1e9
}

fn wait(d: Duration) {
    let t = Instant::now();
    while t.elapsed() <= d {}
}

#[test]
fn lib_it_works() {
    let mut state = DownloadState::new(10, "https://www.rust-lang.org");

    assert!(state.update(0).is_none());
    wait(Duration::from_secs(1));

    let mid_update = state.update(5).unwrap();
    assert_eq!(0.5, percentage(&mid_update));
    assert!(secs(mid_update.elapsed_nanos as u128) > 1.);
    assert!(secs(mid_update.remaining_nanos) > 1.);

    let end_update = state.update(5).unwrap();
    assert_eq!(1., percentage(&end_update));
    assert_eq!(0., secs(end_update.remaining_nanos));
}

#[test]
fn zero_delta_emits_nothing_and_keeps_offset() {
    let mut state = DownloadState::new(10, "X");
    assert!(state.advance(3, 100).is_some());
    assert!(state.advance(0, 200).is_none());
    assert!(state.update(0).is_none());
    assert_eq!(state.offset(), 3);
    assert_eq!(state.total_size(), 10);
}

#[test]
fn fraction_never_decreases_and_stays_in_range() {
    let mut state = DownloadState::new(7, "X");
    let mut last = 0.0f32;
    for d in [1usize, 2, 1, 3] {
        let e = state.advance(d, 10).unwrap();
        let p = percentage(&e);
        assert!(p >= last);
        assert!((0.0..=1.0).contains(&p));
        last = p;
    }
    assert_eq!(last, 1.0);
}

#[test]
fn reaching_total_gives_exactly_no_remaining_time() {
    let mut state = DownloadState::new(4, "X");
    let e = state.advance(1, 1_000).unwrap();
    assert_eq!((e.fraction_num, e.fraction_den), (1, 4));
    assert_eq!(e.remaining_nanos, 3_000);
    let e = state.advance(3, 7_777).unwrap();
    assert_eq!(e.fraction_num, e.fraction_den);
    assert_eq!(e.remaining_nanos, 0);
}

#[test]
fn remaining_time_is_linear_extrapolation() {
    let mut state = DownloadState::new(10, "X");
    let e = state.advance(2, 1_000).unwrap();
    assert_eq!(e.elapsed_nanos, 1_000);
    assert_eq!(e.remaining_nanos, 4_000);
    let e = state.advance(1, 3_000).unwrap();
    assert_eq!(e.remaining_nanos, 7_000);
}

#[test]
fn elapsed_time_strictly_increases() {
    let mut state = DownloadState::new(100, "X");
    let a = state.update(10).unwrap();
    wait(Duration::from_millis(5));
    let b = state.update(10).unwrap();
    assert!(b.elapsed_nanos > a.elapsed_nanos);
    let c = state.advance(1, 5).unwrap();
    let d = state.advance(1, 6).unwrap();
    assert!(d.elapsed_nanos > c.elapsed_nanos);
}

#[test]
fn mid_transfer_scenario() {
    let mut state = DownloadState::new(10, "X");
    assert!(state.update(0).is_none());
    wait(Duration::from_millis(20));
    let mid = state.update(5).unwrap();
    assert_eq!(mid.url, "X");
    assert_eq!(percentage(&mid), 0.5);
    assert!(mid.elapsed_nanos > 20_000_000);
    assert!(mid.remaining_nanos > 0);
    let end = state.update(5).unwrap();
    assert_eq!(percentage(&end), 1.0);
    assert_eq!(end.remaining_nanos, 0);
}

#[test]
fn zero_total_counts_as_complete() {
    let mut state = DownloadState::new(0, "Y");
    let e = state.update(1).unwrap();
    assert_eq!(e.url, "Y");
    assert_eq!(percentage(&e), 1.0);
    assert_eq!(e.remaining_nanos, 0);
    let e = state.advance(5, 99).unwrap();
    assert_eq!((e.fraction_num, e.fraction_den), (1, 1));
    assert_eq!(e.remaining_nanos, 0);
}

#[test]
fn overflow_is_clamped() {
    let mut state = DownloadState::new(10, "Z");
    let e = state.update(15).unwrap();
    assert_eq!(percentage(&e), 1.0);
    assert_eq!(e.remaining_nanos, 0);
    assert_eq!(state.offset(), 15);
}

#[test]
fn byte_count_saturates() {
    let mut state = DownloadState::new(10, "Z");
    state.advance(usize::MAX, 1).unwrap();
    let e = state.advance(5, 2).unwrap();
    assert_eq!(state.offset(), usize::MAX);
    assert_eq!((e.fraction_num, e.fraction_den), (10, 10));
}

#[test]
fn shared_updates_lose_nothing() {
    for order in [[3usize, 7], [7, 3]] {
        let shared = Mutex::new(DownloadState::new(10, "S"));
        let mut events = Vec::new();
        for d in order {
            events.push(shared.lock().unwrap().update(d).unwrap());
        }
        let state = shared.into_inner().unwrap();
        assert_eq!(state.offset(), 10);
        assert_eq!(percentage(&events[1]), 1.0);
        assert_eq!(events[1].remaining_nanos, 0);
    }
}

#[test]
fn finish_leaves_state() {
    let mut state = DownloadState::new(10, "X");
    state.advance(4, 1).unwrap();
    state.finish();
    assert_eq!(state.offset(), 4);
    assert_eq!(state.total_size(), 10);
}
