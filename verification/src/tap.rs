//! Screening of the events that reach the scroll-wheel event tap: which are
//! left alone, which re-arm the tap, and which wheel movements are taken
//! over and smoothed.

use vstd::prelude::*;

verus! {

/// Event type of a scroll-wheel event.
pub const SCROLL_WHEEL: u32 = 22;
/// Pseudo event type the system sends when it disabled a slow tap.
pub const TAP_DISABLED_BY_TIMEOUT: u32 = 0xFFFF_FFFE;
/// Source user data that tags the synthetic events this utility posts
/// ("SMSC" in ASCII).
pub const SYNTHETIC_MARKER: i64 = 0x534D_5343;

/// Event tap location where hardware events enter the system.
pub const HID_EVENT_TAP: u32 = 0;
/// Event tap location where events enter a login session, after the HID
/// location.
pub const SESSION_EVENT_TAP: u32 = 1;
/// Location of the scroll-wheel event tap.
pub const TAP_LOCATION: u32 = HID_EVENT_TAP;
/// Location synthetic scroll events are posted to.
pub const POST_LOCATION: u32 = SESSION_EVENT_TAP;

/// Whether location `later` comes after location `earlier` in the event
/// pipeline (HID, then session, then annotated session), so that events
/// posted at `later` never pass a tap at `earlier`.
pub open spec fn is_downstream(earlier: u32, later: u32) -> bool {
    earlier < later && later <= 2
}

/// First verdict on an event, from its type alone.
#[derive(Clone, Copy, Debug, PartialEq, Eq, Structural)]
pub enum TapScreen {
    /// The system disabled the tap: enable it again and let the event pass.
    ReenableTap,
    /// Not a wheel event: it passes unchanged.
    PassThrough,
    /// A scroll-wheel event: look at where it comes from.
    ScrollWheel,
}

/// The verdict `screen_event_type` gives.
pub open spec fn spec_screen(event_type: u32) -> TapScreen {
    if event_type == TAP_DISABLED_BY_TIMEOUT {
        TapScreen::ReenableTap
    } else if event_type != SCROLL_WHEEL {
        TapScreen::PassThrough
    } else {
        TapScreen::ScrollWheel
    }
}

/// Screen an event that reached the tap by its type: re-arm the tap after
/// a timeout, let every event but a wheel event through.
pub fn screen_event_type(event_type: u32) -> (screen: TapScreen)
    ensures
        screen == spec_screen(event_type),
        (screen == TapScreen::ReenableTap) == (event_type == 0xFFFF_FFFEu32),
        (screen == TapScreen::ScrollWheel) == (event_type == 22u32),
{
    if event_type == TAP_DISABLED_BY_TIMEOUT {
        TapScreen::ReenableTap
    } else if event_type != SCROLL_WHEEL {
        TapScreen::PassThrough
    } else {
        TapScreen::ScrollWheel
    }
}

/// Whether a wheel event with this source user data was posted by this
/// utility itself; such an event passes unchanged.
pub fn is_synthetic(user_data: i64) -> (synthetic: bool)
    ensures
        synthetic == (user_data == SYNTHETIC_MARKER),
{
    user_data == SYNTHETIC_MARKER
}

/// The integer fields of a scroll-wheel event that decide its handling.
#[derive(Clone, Copy, Debug, PartialEq, Eq, Structural)]
pub struct WheelFields {
    /// Non-zero for pixel-precise (continuous) events.
    pub is_continuous: i64,
    pub scroll_phase: i64,
    pub momentum_phase: i64,
    /// Line deltas of a discrete wheel event.
    pub delta_y: i64,
    pub delta_x: i64,
    /// Pixel deltas of a continuous event.
    pub point_delta_y: i64,
    pub point_delta_x: i64,
}

/// A wheel movement taken over for smoothing.
#[derive(Clone, Copy, Debug, PartialEq, Eq, Structural)]
pub struct WheelInput {
    /// Pixel deltas (continuous) rather than line ticks (discrete).
    pub continuous: bool,
    pub raw_y: i64,
    pub raw_x: i64,
}

/// A continuous event in a scroll or momentum phase: a real trackpad.
pub open spec fn is_trackpad(fields: WheelFields) -> bool {
    fields.is_continuous != 0 && (fields.scroll_phase != 0 || fields.momentum_phase != 0)
}

/// The movement `wheel_input` takes over, if any.
pub open spec fn spec_wheel_input(enabled: bool, fields: WheelFields) -> Option<WheelInput> {
    if !enabled || is_trackpad(fields) {
        None
    } else {
        let continuous = fields.is_continuous != 0;
        let raw_y = if continuous { fields.point_delta_y } else { fields.delta_y };
        let raw_x = if continuous { fields.point_delta_x } else { fields.delta_x };
        if raw_y == 0 && raw_x == 0 {
            None
        } else {
            Some(WheelInput { continuous, raw_y, raw_x })
        }
    }
}

/// Decide whether a wheel event from a device is taken over. `enabled` is
/// the user's switch. Trackpad
/// events pass; continuous events without a phase (a mouse driver's pixel
/// scrolling) give their pixel deltas, discrete events their line deltas;
/// an event that moves nothing passes.
pub fn wheel_input(enabled: bool, fields: &WheelFields) -> (input: Option<WheelInput>)
    ensures
        input == spec_wheel_input(enabled, *fields),
        !enabled ==> input is None,
        fields.is_continuous != 0 ==> (fields.scroll_phase != 0 ==> input is None) && (fields.momentum_phase
            != 0 ==> input is None),
        enabled && fields.is_continuous == 0 ==> input == (if fields.delta_y == 0 && fields.delta_x == 0 {
            None
        } else {
            Some(WheelInput { continuous: false, raw_y: fields.delta_y, raw_x: fields.delta_x })
        }),
        enabled && fields.is_continuous != 0 && fields.scroll_phase == 0 && fields.momentum_phase == 0
            ==> input == (if fields.point_delta_y == 0 && fields.point_delta_x == 0 {
            None
        } else {
            Some(WheelInput { continuous: true, raw_y: fields.point_delta_y, raw_x: fields.point_delta_x })
        }),
{
    if !enabled {
        return None;
    }
    let continuous = fields.is_continuous != 0;
    if continuous && (fields.scroll_phase != 0 || fields.momentum_phase != 0) {
        return None;
    }
    let (raw_y, raw_x) = if continuous {
        (fields.point_delta_y, fields.point_delta_x)
    } else {
        (fields.delta_y, fields.delta_x)
    };
    if raw_y == 0 && raw_x == 0 {
        None
    } else {
        Some(WheelInput { continuous, raw_y, raw_x })
    }
}


/// Synthetic scroll events are posted downstream of the tap, so they never
/// reach it; the marker on them is a second guard.
pub proof fn lemma_posted_events_bypass_tap()
    ensures
        is_downstream(TAP_LOCATION, POST_LOCATION),
{
}

/// Only scroll-wheel events can be taken over; every other event passes,
/// except the timeout notice, which re-arms the tap.
pub proof fn lemma_only_wheel_events_inspected(event_type: u32)
    ensures
        spec_screen(event_type) == TapScreen::ScrollWheel <==> event_type == SCROLL_WHEEL,
        event_type != SCROLL_WHEEL && event_type != TAP_DISABLED_BY_TIMEOUT ==> spec_screen(event_type)
            == TapScreen::PassThrough,
{
}

/// Trackpad scrolling is left untouched, whatever the settings.
pub proof fn lemma_trackpad_untouched(enabled: bool, fields: WheelFields)
    requires
        is_trackpad(fields),
    ensures
        spec_wheel_input(enabled, fields) is None,
{
}

/// What is taken over, over the raw fields: nothing while switched off;
/// never a continuous event in a scroll phase (a finger on a trackpad,
/// e.g. the "changed" phase of a two-finger scroll) or a momentum phase
/// (a trackpad's inertia), whatever its phase values; a discrete event with
/// its line deltas, and a continuous event in neither phase (a mouse
/// driver's pixel scrolling) with its pixel deltas, unless they are both
/// zero.
pub proof fn lemma_wheel_input_over_fields(enabled: bool, fields: WheelFields)
    ensures
        !enabled ==> spec_wheel_input(enabled, fields) is None,
        fields.is_continuous != 0 && fields.scroll_phase != 0 ==> spec_wheel_input(enabled, fields) is None,
        fields.is_continuous != 0 && fields.momentum_phase != 0 ==> spec_wheel_input(enabled, fields) is None,
        enabled && fields.is_continuous == 0 && (fields.delta_y != 0 || fields.delta_x != 0)
            ==> spec_wheel_input(enabled, fields) == Some(
            WheelInput { continuous: false, raw_y: fields.delta_y, raw_x: fields.delta_x },
        ),
        enabled && fields.is_continuous != 0 && fields.scroll_phase == 0 && fields.momentum_phase == 0 && (
        fields.point_delta_y != 0 || fields.point_delta_x != 0) ==> spec_wheel_input(enabled, fields) == Some(
            WheelInput { continuous: true, raw_y: fields.point_delta_y, raw_x: fields.point_delta_x },
        ),
        spec_wheel_input(enabled, fields) matches Some(input) ==> enabled && (input.raw_y != 0
            || input.raw_x != 0),
{
}

/// With smoothing switched off, every wheel event passes.
pub proof fn lemma_disabled_passes(fields: WheelFields)
    ensures
        spec_wheel_input(false, fields) is None,
{
}

/// With smoothing on, every wheel event that is not a trackpad's and moves
/// something is taken over: a discrete event with its line deltas, a
/// continuous one (a mouse driver's pixel scrolling) with its pixel deltas.
pub proof fn lemma_mouse_scrolling_taken(fields: WheelFields)
    requires
        !is_trackpad(fields),
    ensures
        fields.is_continuous == 0 && (fields.delta_y != 0 || fields.delta_x != 0) ==> spec_wheel_input(
            true,
            fields,
        ) == Some(WheelInput { continuous: false, raw_y: fields.delta_y, raw_x: fields.delta_x }),
        fields.is_continuous != 0 && (fields.point_delta_y != 0 || fields.point_delta_x != 0)
            ==> spec_wheel_input(true, fields) == Some(
            WheelInput { continuous: true, raw_y: fields.point_delta_y, raw_x: fields.point_delta_x },
        ),
        spec_wheel_input(true, fields) matches Some(input) ==> input.raw_y != 0 || input.raw_x != 0,
{
}

} // verus!
