//! Playback sink model.
//!
//! The sink buffers tracked samples on their way to the hardware
//! output device and exposes the controls the player drives:
//! play/pause, volume, and exhaustion. The hardware emission itself is
//! a collaborator's business; this model owns the queue accounting and
//! the control state, and the collaborator mirrors every call onto the
//! real device.

use vstd::prelude::*;

verus! {

/// The sink's state: how many queued samples have not reached the
/// device, whether emission is paused, and the applied volume.
pub struct PlaybackSink {
    pub queued: u64,
    pub paused: bool,
    pub volume: u8,
}

impl PlaybackSink {
    /// The volume is a percentage.
    pub open spec fn wf(self) -> bool {
        self.volume <= 100
    }

    /// A fresh sink: nothing queued, emitting, at full volume.
    pub fn new() -> (s: PlaybackSink)
        ensures
            s == (PlaybackSink { queued: 0u64, paused: false, volume: 100u8 }),
            s.wf(),
    {
        PlaybackSink { queued: 0, paused: false, volume: 100 }
    }

    /// Queue a sequence of samples behind everything queued so far.
    pub fn append(&mut self, samples: &Vec<i16>)
        requires
            old(self).wf(),
            old(self).queued + samples@.len() <= u64::MAX,
        ensures
            *final(self) == (PlaybackSink {
                queued: (old(self).queued + samples@.len()) as u64,
                ..*old(self)
            }),
            final(self).wf(),
    {
        self.queued = self.queued + samples.len() as u64;
    }

    /// Resume emission.
    pub fn play(&mut self)
        requires
            old(self).wf(),
        ensures
            *final(self) == (PlaybackSink { paused: false, ..*old(self) }),
            final(self).wf(),
    {
        self.paused = false;
    }

    /// Suspend emission.
    pub fn pause(&mut self)
        requires
            old(self).wf(),
        ensures
            *final(self) == (PlaybackSink { paused: true, ..*old(self) }),
            final(self).wf(),
    {
        self.paused = true;
    }

    /// Whether emission is suspended.
    pub fn is_paused(&self) -> (r: bool)
        ensures
            r == self.paused,
    {
        self.paused
    }

    /// Apply a volume percentage. A value outside `[0, 100]` is
    /// rejected as a no-op — never clamped silently — so that volume
    /// adjustment stays idempotent at the boundary.
    pub fn set_volume(&mut self, percent: u8)
        requires
            old(self).wf(),
        ensures
            percent <= 100 ==> *final(self) == (PlaybackSink { volume: percent, ..*old(self) }),
            percent > 100 ==> *final(self) == *old(self),
            final(self).wf(),
    {
        if percent <= 100 {
            self.volume = percent;
        }
    }

    /// The device consumed up to `n` samples: emission happens only
    /// while not paused, and never consumes more than is queued.
    pub fn emit(&mut self, n: u64)
        requires
            old(self).wf(),
        ensures
            old(self).paused ==> *final(self) == *old(self),
            !old(self).paused ==> *final(self) == (PlaybackSink {
                queued: if n <= old(self).queued {
                    (old(self).queued - n) as u64
                } else {
                    0u64
                },
                ..*old(self)
            }),
            final(self).wf(),
    {
        if !self.paused {
            if n <= self.queued {
                self.queued = self.queued - n;
            } else {
                self.queued = 0;
            }
        }
    }

    /// Whether the queued sample sequence is fully drained — the
    /// stopped condition the control loop watches for.
    pub fn is_empty(&self) -> (r: bool)
        ensures
            r == (self.queued == 0),
    {
        self.queued == 0
    }
}

} // verus!
