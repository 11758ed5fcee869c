use smooth_scroll::tap::{
    HID_EVENT_TAP, POST_LOCATION, SESSION_EVENT_TAP, TAP_LOCATION,
    is_synthetic, screen_event_type, wheel_input, TapScreen, WheelFields, WheelInput, SCROLL_WHEEL,
    SYNTHETIC_MARKER, TAP_DISABLED_BY_TIMEOUT,
};

fn fields(is_continuous: i64, scroll_phase: i64, momentum_phase: i64) -> WheelFields {
    WheelFields {
        is_continuous,
        scroll_phase,
        momentum_phase,
        delta_y: -3,
        delta_x: 1,
        point_delta_y: -27,
        point_delta_x: 9,
    }
}

#[test]
fn timeout_notice_reenables_tap() {
    assert_eq!(screen_event_type(TAP_DISABLED_BY_TIMEOUT), TapScreen::ReenableTap);
    assert_eq!(screen_event_type(0xFFFF_FFFE), TapScreen::ReenableTap);
}

#[test]
fn other_event_types_pass() {
    assert_eq!(screen_event_type(1), TapScreen::PassThrough);
    assert_eq!(screen_event_type(21), TapScreen::PassThrough);
    assert_eq!(screen_event_type(0xFFFF_FFFF), TapScreen::PassThrough);
}

#[test]
fn wheel_events_screened_in() {
    assert_eq!(screen_event_type(SCROLL_WHEEL), TapScreen::ScrollWheel);
    assert_eq!(screen_event_type(22), TapScreen::ScrollWheel);
}

#[test]
fn own_events_recognised() {
    assert!(is_synthetic(SYNTHETIC_MARKER));
    assert!(is_synthetic(0x534D_5343));
    assert!(!is_synthetic(0));
    assert!(!is_synthetic(0x534D_5342));
}

#[test]
fn discrete_wheel_uses_line_deltas() {
    assert_eq!(
        wheel_input(true, &fields(0, 0, 0)),
        Some(WheelInput { continuous: false, raw_y: -3, raw_x: 1 })
    );
}

#[test]
fn driver_pixel_scrolling_uses_point_deltas() {
    assert_eq!(
        wheel_input(true, &fields(1, 0, 0)),
        Some(WheelInput { continuous: true, raw_y: -27, raw_x: 9 })
    );
}

#[test]
fn trackpad_events_untouched() {
    assert_eq!(wheel_input(true, &fields(1, 1, 0)), None);
    assert_eq!(wheel_input(true, &fields(1, 0, 2)), None);
    assert_eq!(wheel_input(true, &fields(1, 4, 3)), None);
}

#[test]
fn phases_ignored_for_discrete_events() {
    assert_eq!(
        wheel_input(true, &fields(0, 1, 1)),
        Some(WheelInput { continuous: false, raw_y: -3, raw_x: 1 })
    );
}

#[test]
fn disabled_switch_passes() {
    assert_eq!(wheel_input(false, &fields(0, 0, 0)), None);
    assert_eq!(wheel_input(false, &fields(1, 0, 0)), None);
}

#[test]
fn motionless_events_pass() {
    let still = WheelFields {
        is_continuous: 0,
        scroll_phase: 0,
        momentum_phase: 0,
        delta_y: 0,
        delta_x: 0,
        point_delta_y: 5,
        point_delta_x: 5,
    };
    assert_eq!(wheel_input(true, &still), None);
    let still_pixels = WheelFields { is_continuous: 1, point_delta_y: 0, point_delta_x: 0, delta_y: 2, ..still };
    assert_eq!(wheel_input(true, &still_pixels), None);
}

#[test]
fn horizontal_only_movement_taken() {
    let sideways = WheelFields {
        is_continuous: 0,
        scroll_phase: 0,
        momentum_phase: 0,
        delta_y: 0,
        delta_x: -2,
        point_delta_y: 0,
        point_delta_x: 0,
    };
    assert_eq!(
        wheel_input(true, &sideways),
        Some(WheelInput { continuous: false, raw_y: 0, raw_x: -2 })
    );
}

#[test]
fn synthetic_events_posted_downstream_of_tap() {

    assert_eq!(TAP_LOCATION, HID_EVENT_TAP);
    assert_eq!(POST_LOCATION, SESSION_EVENT_TAP);
    assert!(TAP_LOCATION < POST_LOCATION);
}
