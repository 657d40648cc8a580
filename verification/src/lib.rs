//! Verified core of a laser-projector point stream: a bounded reversing
//! counter for demo motion, a color/point codec for the DAC, a playback
//! state machine over animation frames, an integer phase clock, and the
//! pull-based callback bodies that fill point buffers on demand.

pub mod codec;
pub mod oscillator;
pub mod phase;
pub mod playback;
pub mod stream;
