//! Decision logic of a smooth-scrolling utility: which raw wheel events are
//! smoothed, how frame time is measured, and the lifecycle of the event tap,
//! the display link and the engine, each as a verified state machine whose
//! commands the platform layer carries out.

pub mod clock;
pub mod cv;
pub mod tap;
pub mod tap_thread;
pub mod display_link;
pub mod fallback_loop;
pub mod engine;
pub mod commands;
