use smooth_scroll::clock::{should_post_scroll, tick_frame_clock, ticks_to_ns, FrameTick, Timebase};

const APPLE_SILICON: Timebase = Timebase { numer: 125, denom: 3 };
const INTEL: Timebase = Timebase { numer: 1, denom: 1 };

#[test]
fn ticks_convert_to_nanoseconds() {
    assert_eq!(ticks_to_ns(24, APPLE_SILICON), 1000);
    assert_eq!(ticks_to_ns(200_000, APPLE_SILICON), 8_333_333);
    assert_eq!(ticks_to_ns(7, INTEL), 7);
    assert_eq!(ticks_to_ns(0, APPLE_SILICON), 0);
    assert_eq!(ticks_to_ns(1, Timebase { numer: 1, denom: 2 }), 0);
}

#[test]
fn first_moving_frame_uses_reference_interval() {
    let mut last: u64 = 0;
    assert_eq!(tick_frame_clock(&mut last, 5_000, false, APPLE_SILICON), FrameTick::Moving { interval_ns: None });
    assert_eq!(last, 5_000);
}

#[test]
fn later_frames_measure_interval() {
    let mut last: u64 = 1_000;
    assert_eq!(
        tick_frame_clock(&mut last, 201_000, false, APPLE_SILICON),
        FrameTick::Moving { interval_ns: Some(8_333_333) }
    );
    assert_eq!(last, 201_000);
}

#[test]
fn idle_frame_only_records_time() {
    let mut last: u64 = 1_000;
    assert_eq!(tick_frame_clock(&mut last, 9_999, true, APPLE_SILICON), FrameTick::Idle);
    assert_eq!(last, 9_999);
}

#[test]
fn backward_clock_measures_nothing() {
    let mut last: u64 = 10_000;
    assert_eq!(
        tick_frame_clock(&mut last, 4_000, false, APPLE_SILICON),
        FrameTick::Moving { interval_ns: Some(0) }
    );
    assert_eq!(last, 4_000);
}

#[test]
fn post_only_when_moving() {
    assert!(!should_post_scroll(0, 0));
    assert!(should_post_scroll(1, 0));
    assert!(should_post_scroll(0, -1));
    assert!(should_post_scroll(-80, 40));
}

#[test]
fn unmeasured_frames_read_no_timebase() {
    let unset = Timebase { numer: 0, denom: 0 };
    let mut last: u64 = 0;
    assert_eq!(tick_frame_clock(&mut last, 77, false, unset), FrameTick::Moving { interval_ns: None });
    assert_eq!(last, 77);
    assert_eq!(tick_frame_clock(&mut last, 99, true, unset), FrameTick::Idle);
    assert_eq!(last, 99);
}
