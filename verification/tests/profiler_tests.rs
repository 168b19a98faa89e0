use cube_renderer::profiler::{FrameProfiler, DROP_THRESHOLD_NANOS, FRAMES_PER_REPORT};

const MS: u64 = 1_000_000;

#[test]
fn empty_window_has_no_stats() {
    let profiler = FrameProfiler::new(120);
    assert!(profiler.log().is_none());
    assert_eq!(profiler.avg_frame_time_nanos(), 0);
}

#[test]
fn report_due_before_first_frame() {
    let profiler = FrameProfiler::new(120);
    assert!(profiler.should_log());
}

#[test]
fn report_due_every_120_frames() {
    let mut profiler = FrameProfiler::new(300);
    for i in 1..=(2 * FRAMES_PER_REPORT) {
        profiler.record(16 * MS);
        assert_eq!(profiler.should_log(), i % FRAMES_PER_REPORT == 0);
    }
}

#[test]
fn window_keeps_only_newest_samples() {
    let mut profiler = FrameProfiler::new(3);
    assert_eq!(profiler.frames_recorded(), 0);
    profiler.record(40 * MS);
    profiler.record(10 * MS);
    profiler.record(20 * MS);
    profiler.record(30 * MS);
    assert_eq!(profiler.frames_recorded(), 4);
    let stats = profiler.log().unwrap();
    assert_eq!(stats.samples, 3);
    assert_eq!(stats.min_nanos, 10 * MS);
    assert_eq!(stats.max_nanos, 30 * MS);
    assert_eq!(stats.avg_nanos, 20 * MS);
}

#[test]
fn fps_is_rounded_reciprocal() {
    let mut profiler = FrameProfiler::new(10);
    profiler.record(16_666_667);
    assert_eq!(profiler.log().unwrap().fps, 60);
    profiler.record(10 * MS);
    assert_eq!(profiler.log().unwrap().fps, 100);
    profiler.record(3_000_000_000);
    assert_eq!(profiler.log().unwrap().fps, 0);
}

#[test]
fn fps_saturates_on_zero_frame_time() {
    let mut profiler = FrameProfiler::new(10);
    profiler.record(0);
    assert_eq!(profiler.log().unwrap().fps, u64::MAX);
}

#[test]
fn average_rounds_down() {
    let mut profiler = FrameProfiler::new(10);
    profiler.record(1);
    profiler.record(2);
    assert_eq!(profiler.avg_frame_time_nanos(), 1);
    assert_eq!(profiler.log().unwrap().avg_nanos, 1);
}

#[test]
fn drop_threshold_is_strict() {
    let mut profiler = FrameProfiler::new(10);
    profiler.record(DROP_THRESHOLD_NANOS);
    profiler.record(DROP_THRESHOLD_NANOS + 1);
    let stats = profiler.log().unwrap();
    assert_eq!(stats.drops, 1);
}

#[test]
fn three_hundred_alternating_frames() {
    let mut profiler = FrameProfiler::new(300);
    for i in 0..300u64 {
        profiler.record(if i % 2 == 0 { 10 * MS } else { 30 * MS });
    }
    let stats = profiler.log().unwrap();
    assert_eq!(stats.samples, 300);
    assert_eq!(stats.drops, 150);
    assert_eq!(100 * stats.drops / stats.samples, 50);
    assert_eq!(stats.avg_nanos, 20 * MS);
    assert_eq!(stats.min_nanos, 10 * MS);
    assert_eq!(stats.max_nanos, 30 * MS);
    // The sorted window is 150 short frames then 150 long ones, so both
    // percentile samples land in the long half.
    assert_eq!(stats.p95_nanos, 30 * MS);
    assert_eq!(stats.p99_nanos, 30 * MS);
}

#[test]
fn percentiles_from_sorted_window() {
    let mut profiler = FrameProfiler::new(100);
    // Recorded from longest to shortest: 100 ms down to 1 ms.
    for i in 0..100u64 {
        profiler.record((100 - i) * MS);
    }
    let stats = profiler.log().unwrap();
    assert_eq!(stats.min_nanos, 1 * MS);
    assert_eq!(stats.max_nanos, 100 * MS);
    assert_eq!(stats.p95_nanos, 96 * MS);
    assert_eq!(stats.p99_nanos, 100 * MS);
}

#[test]
fn percentiles_ignore_insertion_order() {
    let values = [7u64, 3, 9, 1, 5, 8, 2, 6, 4, 10];
    let mut ascending = FrameProfiler::new(10);
    let mut shuffled = FrameProfiler::new(10);
    for i in 1..=10u64 {
        ascending.record(i * MS);
    }
    for v in values {
        shuffled.record(v * MS);
    }
    let a = ascending.log().unwrap();
    let b = shuffled.log().unwrap();
    assert_eq!(a.p95_nanos, b.p95_nanos);
    assert_eq!(a.p99_nanos, b.p99_nanos);
    assert_eq!(a.min_nanos, b.min_nanos);
    assert_eq!(a.max_nanos, b.max_nanos);
    assert_eq!(a.avg_nanos, b.avg_nanos);
}

#[test]
fn largest_possible_sample() {
    let mut profiler = FrameProfiler::new(4);
    profiler.record(u64::MAX);
    profiler.record(10 * MS);
    let stats = profiler.log().unwrap();
    assert_eq!(stats.fps, 100);
    assert_eq!(stats.max_nanos, u64::MAX);
    assert_eq!(stats.min_nanos, 10 * MS);
    // A frame of the largest possible duration corresponds to zero fps.
    profiler.record(u64::MAX);
    assert_eq!(profiler.log().unwrap().fps, 0);
}

#[test]
fn single_sample_stats() {
    let mut profiler = FrameProfiler::new(120);
    profiler.record(25 * MS);
    let stats = profiler.log().unwrap();
    assert_eq!(stats.samples, 1);
    assert_eq!(stats.avg_nanos, 25 * MS);
    assert_eq!(stats.min_nanos, 25 * MS);
    assert_eq!(stats.max_nanos, 25 * MS);
    assert_eq!(stats.p95_nanos, 25 * MS);
    assert_eq!(stats.p99_nanos, 25 * MS);
    assert_eq!(stats.drops, 1);
}
