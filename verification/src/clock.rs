//! Frame timing: conversion of host-clock ticks into nanoseconds and the
//! elapsed time between two display frames.

use vstd::prelude::*;

verus! {

/// Ratio that converts host-clock ticks into nanoseconds
/// (`ns = ticks * numer / denom`).
#[derive(Clone, Copy, Debug, PartialEq, Eq, Structural)]
pub struct Timebase {
    pub numer: u32,
    pub denom: u32,
}

/// Nanoseconds in `ticks` host-clock ticks, rounded down.
pub open spec fn spec_ticks_to_ns(ticks: u64, timebase: Timebase) -> int {
    (ticks * timebase.numer) / (timebase.denom as int)
}

/// Convert host-clock ticks into nanoseconds.
pub fn ticks_to_ns(ticks: u64, timebase: Timebase) -> (ns: u64)
    requires
        timebase.denom > 0,
        ticks * timebase.numer <= u64::MAX,
    ensures
        ns == spec_ticks_to_ns(ticks, timebase),
        ns * timebase.denom <= ticks * timebase.numer,
        ticks * timebase.numer < (ns + 1) * timebase.denom,
{
    let product: u64 = ticks * (timebase.numer as u64);
    let ns: u64 = product / (timebase.denom as u64);
    proof {
        lemma_floor_division(product as int, timebase.denom as int);
    }
    ns
}

/// `product / denom` is the whole number of times `denom` fits into
/// `product`.
proof fn lemma_floor_division(product: int, denom: int)
    requires
        product >= 0,
        denom > 0,
    ensures
        (product / denom) * denom <= product,
        product < (product / denom + 1) * denom,
{
    vstd::arithmetic::div_mod::lemma_fundamental_div_mod(product, denom);
    vstd::arithmetic::div_mod::lemma_mod_bound(product, denom);
    assert((product / denom) * denom == denom * (product / denom)) by (nonlinear_arith);
    assert((product / denom + 1) * denom == denom * (product / denom) + denom) by (nonlinear_arith);
}

/// The nanoseconds in `ticks` ticks are the largest whole number `ns` with
/// `ns * denom <= ticks * numer`: one less is too few and one more too many.
pub proof fn lemma_ticks_to_ns_is_floor(ticks: u64, timebase: Timebase)
    requires
        timebase.denom > 0,
    ensures
        spec_ticks_to_ns(ticks, timebase) >= 0,
        spec_ticks_to_ns(ticks, timebase) * timebase.denom <= ticks * timebase.numer,
        ticks * timebase.numer < (spec_ticks_to_ns(ticks, timebase) + 1) * timebase.denom,
{
    assert(ticks * timebase.numer >= 0) by (nonlinear_arith);
    lemma_floor_division(ticks * timebase.numer, timebase.denom as int);
    vstd::arithmetic::div_mod::lemma_div_pos_is_pos(ticks * timebase.numer, timebase.denom as int);
}


/// Host-clock ticks from `last` to `now`; a clock that went backwards
/// counts as no time at all.
pub open spec fn elapsed_ticks(last: u64, now: u64) -> u64 {
    if now >= last { (now - last) as u64 } else { 0 }
}

/// Time measured by a frame at `now` after a previous frame at `last`
/// (`0` when no frame has been measured yet): `None` stands for "use the
/// reference frame interval", `Some(ns)` for the measured interval.
pub open spec fn spec_frame_interval(last: u64, now: u64, timebase: Timebase) -> Option<int> {
    if last == 0 {
        None
    } else {
        Some(spec_ticks_to_ns(elapsed_ticks(last, now), timebase))
    }
}

/// Whether the interval of a frame at `now` can be computed: a measured
/// interval (after a previous frame) needs a non-zero denominator and a
/// tick product that does not overflow; the first frame reads no timebase.
pub open spec fn frame_interval_computable(last: u64, now: u64, timebase: Timebase) -> bool {
    last != 0 ==> timebase.denom > 0 && elapsed_ticks(last, now) * timebase.numer <= u64::MAX
}

/// What the frame clock reports for one display frame.
#[derive(Clone, Copy, Debug, PartialEq, Eq, Structural)]
pub enum FrameTick {
    /// Nothing is moving: the frame does no work.
    Idle,
    /// Something moves: the frame runs the physics over this interval
    /// (`None`: the reference interval, on the first measured frame).
    Moving { interval_ns: Option<u64> },
}

/// Clock one display frame at `now`. Whether or not anything moves, `now`
/// becomes the time of the latest frame; a moving frame also learns the
/// interval since the previous one.
pub fn tick_frame_clock(last_frame_time: &mut u64, now: u64, idle: bool, timebase: Timebase) -> (tick: FrameTick)
    requires
        !idle ==> frame_interval_computable(*old(last_frame_time), now, timebase),
    ensures
        *final(last_frame_time) == now,
        idle ==> tick == FrameTick::Idle,
        !idle ==> match tick {
            FrameTick::Moving { interval_ns: None } =>
                spec_frame_interval(*old(last_frame_time), now, timebase) is None,
            FrameTick::Moving { interval_ns: Some(ns) } =>
                spec_frame_interval(*old(last_frame_time), now, timebase) == Some(ns as int),
            FrameTick::Idle => false,
        },
        !idle && *old(last_frame_time) == 0 ==> tick == (FrameTick::Moving { interval_ns: None }),
        !idle && *old(last_frame_time) != 0 ==> (tick matches FrameTick::Moving { interval_ns: Some(ns) }
            && ns * timebase.denom <= (if now >= *old(last_frame_time) { now - *old(last_frame_time) } else { 0 })
            * timebase.numer
            && (if now >= *old(last_frame_time) { now - *old(last_frame_time) } else { 0 }) * timebase.numer
            < (ns + 1) * timebase.denom),
{
    if idle {
        *last_frame_time = now;
        return FrameTick::Idle;
    }
    let interval_ns = if *last_frame_time == 0 {
        None
    } else {
        Some(ticks_to_ns(now.saturating_sub(*last_frame_time), timebase))
    };
    *last_frame_time = now;
    FrameTick::Moving { interval_ns }
}

/// The interval of a frame follows from the clock alone: the first frame
/// (no previous frame time) takes the reference interval, and every later
/// frame measures the nanoseconds, rounded down, in the ticks since the
/// previous frame (none when the clock went backwards).
pub proof fn lemma_frame_interval_measured(last: u64, now: u64, timebase: Timebase)
    requires
        timebase.denom > 0,
    ensures
        last == 0 <==> spec_frame_interval(last, now, timebase) is None,
        spec_frame_interval(last, now, timebase) matches Some(ns) ==> (ns >= 0
            && ns * timebase.denom <= (if now >= last { now - last } else { 0 }) * timebase.numer
            && (if now >= last { now - last } else { 0 }) * timebase.numer < (ns + 1) * timebase.denom),
{
    lemma_ticks_to_ns_is_floor(elapsed_ticks(last, now), timebase);
}

/// A clock that went backwards since the previous frame measures an empty
/// interval instead of a huge one.
pub proof fn lemma_backward_clock_measures_nothing(last: u64, now: u64, timebase: Timebase)
    requires
        last != 0,
        now < last,
        timebase.denom > 0,
    ensures
        spec_frame_interval(last, now, timebase) == Some(0int),
{
    assert(elapsed_ticks(last, now) == 0);
    assert(0 * timebase.numer == 0) by (nonlinear_arith);
}

/// Whether a frame that computed these whole-pixel deltas posts a scroll
/// event: only when something moves.
pub fn should_post_scroll(delta_y: i32, delta_x: i32) -> (post: bool)
    ensures
        post == (delta_y != 0 || delta_x != 0),
{
    delta_y != 0 || delta_x != 0
}

} // verus!
