//! CoreVideo data that the platform layer shares with the library.

use vstd::prelude::*;

verus! {

/// Opaque CoreVideo display link; only ever used behind a pointer.
pub struct CVDisplayLink {
    _opaque: [u8; 0],
}

/// SMPTE time code carried inside a CoreVideo time stamp.
pub struct CVSMPTETime {
    pub subframes: i16,
    pub subframe_divisor: i16,
    pub counter: u32,
    pub time_type: u32,
    pub flags: u32,
    pub hours: i16,
    pub minutes: i16,
    pub seconds: i16,
    pub frames: i16,
}

} // verus!
