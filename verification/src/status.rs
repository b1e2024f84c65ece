//! Player status line.
//!
//! The snapshot a rendering layer asks for on every tick: whether
//! playback is running, the volume, and the elapsed/total clock. The
//! drawing itself is a collaborator's business; this module owns the
//! values and the clock text.

use vstd::prelude::*;
use crate::clock::clock_display;

verus! {

/// The elapsed and total time shown in the status line.
pub struct Clock {
    pub elapsed_ms: u32,
    pub total_ms: u32,
}

impl Default for Clock {
    /// A clock at the start of a track of unknown length.
    fn default() -> (c: Clock)
        ensures
            c == (Clock { elapsed_ms: 0u32, total_ms: 0u32 }),
    {
        Clock { elapsed_ms: 0, total_ms: 0 }
    }
}

impl Clock {
    /// Render a duration as clock text: `MM:SS`, or `HH:MM:SS` from one
    /// hour on.
    pub fn format(value_ms: u32) -> (r: String)
        ensures
            r@ == clock_display(value_ms as int),
    {
        crate::clock::Clock::format(value_ms)
    }
}

/// One status-line snapshot: play state, volume in percent, clock.
pub struct Status {
    pub is_playing: bool,
    pub volume: u8,
    pub clock: Clock,
}

impl Default for Status {
    /// An idle status line: not playing, silent, clock at zero.
    fn default() -> (s: Status)
        ensures
            s.is_playing == false,
            s.volume == 0,
            s.clock == (Clock { elapsed_ms: 0u32, total_ms: 0u32 }),
    {
        Status { is_playing: false, volume: 0, clock: Clock { elapsed_ms: 0, total_ms: 0 } }
    }
}

impl Status {
    /// Set whether playback is running.
    pub fn is_playing(self, is_playing: bool) -> (s: Status)
        ensures
            s == (Status { is_playing, ..self }),
    {
        Status { is_playing, ..self }
    }

    /// Set the volume, in percent.
    pub fn volume(self, volume: u8) -> (s: Status)
        ensures
            s == (Status { volume, ..self }),
    {
        Status { volume, ..self }
    }

    /// Set the clock.
    pub fn clock(self, clock: Clock) -> (s: Status)
        ensures
            s == (Status { clock, ..self }),
    {
        Status { clock, ..self }
    }
}

} // verus!
