//! Elapsed-time tracking.
//!
//! The tracker follows the stream of PCM samples on its way to the
//! audio sink: one audio frame is complete once a sample has passed for
//! every channel, and the elapsed time is the number of complete frames
//! scaled by the sample rate. This count is the only source of playback
//! position — the output device is never asked, since it cannot report
//! a position for a software-decoded, unseekable stream. The caller
//! publishes the value to the UI thread behind its own lock; every
//! arithmetic fact about the value is established here.

use vstd::prelude::*;
use vstd::arithmetic::div_mod::lemma_div_is_ordered;

verus! {

/// Elapsed playback time in milliseconds after `frames` complete audio
/// frames at `sample_rate` frames per second.
pub open spec fn elapsed_of(frames: int, sample_rate: int) -> int {
    frames * 1000 / sample_rate
}

/// Tracks how many samples have been consumed toward the sink, grouped
/// into complete audio frames.
pub struct ElapsedTracker {
    pub sample_rate: u32,
    pub channels: u16,
    pub samples_in_frame: u16,
    pub frames: u64,
}

impl ElapsedTracker {
    /// The rates are positive and a frame is never left overfull.
    pub open spec fn wf(self) -> bool {
        &&& self.sample_rate > 0
        &&& self.channels > 0
        &&& self.samples_in_frame < self.channels
    }

    /// Total samples consumed so far.
    pub open spec fn samples_consumed(self) -> int {
        self.frames * self.channels + self.samples_in_frame
    }

    /// The tracked elapsed time, in milliseconds.
    pub open spec fn elapsed_spec(self) -> int {
        elapsed_of(self.frames as int, self.sample_rate as int)
    }

    /// A fresh tracker for a stream of the given sample rate and
    /// channel count, with nothing consumed yet.
    pub fn new(sample_rate: u32, channels: u16) -> (t: ElapsedTracker)
        requires
            sample_rate > 0,
            channels > 0,
        ensures
            t == (ElapsedTracker { sample_rate, channels, samples_in_frame: 0u16, frames: 0u64 }),
            t.wf(),
    {
        ElapsedTracker { sample_rate, channels, samples_in_frame: 0, frames: 0 }
    }

    /// Record one sample on its way to the sink. Completing a frame
    /// (one sample per channel) advances the frame count; the elapsed
    /// time never decreases.
    pub fn on_sample(&mut self)
        requires
            old(self).wf(),
            old(self).frames < u64::MAX,
        ensures
            final(self).wf(),
            final(self).sample_rate == old(self).sample_rate,
            final(self).channels == old(self).channels,
            final(self).samples_consumed() == old(self).samples_consumed() + 1,
            final(self).frames == if old(self).samples_in_frame + 1 == old(self).channels {
                old(self).frames + 1
            } else {
                old(self).frames as int
            },
            final(self).elapsed_spec() >= old(self).elapsed_spec(),
    {
        if self.samples_in_frame + 1 == self.channels {
            self.samples_in_frame = 0;
            self.frames = self.frames + 1;
            proof {
                let ghost f = old(self).frames as int;
                let ghost ch = old(self).channels as int;
                assert((f + 1) * ch == f * ch + ch) by (nonlinear_arith);
                lemma_div_is_ordered(
                    old(self).frames * 1000,
                    self.frames * 1000,
                    self.sample_rate as int,
                );
            }
        } else {
            self.samples_in_frame = self.samples_in_frame + 1;
        }
    }

    /// The elapsed time in milliseconds: exactly
    /// `floor(frames * 1000 / sample_rate)`.
    pub fn elapsed_ms(&self) -> (r: u64)
        requires
            self.wf(),
            self.frames <= u64::MAX / 1000,
        ensures
            r == self.elapsed_spec(),
    {
        self.frames * 1000 / (self.sample_rate as u64)
    }

    /// Number of complete frames consumed.
    pub fn frames(&self) -> (f: u64)
        ensures
            f == self.frames,
    {
        self.frames
    }
}

/// The sample sequence of a decoder with the tracker riding on it:
/// every sample handed onward is counted before the caller sees it, so
/// the tracked value can never run ahead of (or fall behind) what was
/// actually delivered toward the sink.
#[verifier::reject_recursive_types(R)]
pub struct TrackedSource<R> {
    pub source: crate::decoder::Mp3Decoder<R>,
    pub tracker: ElapsedTracker,
}

impl<R: std::io::Read> TrackedSource<R> {
    /// Both halves are well formed.
    pub open spec fn wf(self) -> bool {
        &&& self.source.wf()
        &&& self.tracker.wf()
    }

    /// Wrap a decoder, tracking frames of the given rates.
    pub fn new(source: crate::decoder::Mp3Decoder<R>, sample_rate: u32, channels: u16) -> (t:
        TrackedSource<R>)
        requires
            source.wf(),
            sample_rate > 0,
            channels > 0,
        ensures
            t.source == source,
            t.tracker == (ElapsedTracker {
                sample_rate,
                channels,
                samples_in_frame: 0u16,
                frames: 0u64,
            }),
            t.wf(),
    {
        TrackedSource { source, tracker: ElapsedTracker::new(sample_rate, channels) }
    }

    /// The next sample of the decoded sequence. A yielded sample is
    /// counted; a `None` leaves the tracked time untouched.
    pub fn next(&mut self) -> (r: Option<i16>)
        requires
            old(self).wf(),
            old(self).tracker.frames < u64::MAX,
        ensures
            final(self).wf(),
            final(self).tracker.sample_rate == old(self).tracker.sample_rate,
            final(self).tracker.channels == old(self).tracker.channels,
            r is Some ==> final(self).tracker.samples_consumed() == old(
                self,
            ).tracker.samples_consumed() + 1,
            r is None ==> final(self).tracker == old(self).tracker,
            final(self).tracker.elapsed_spec() >= old(self).tracker.elapsed_spec(),
            old(self).source.current_frame_offset < old(
                self,
            ).source.current_frame.data.len() ==> r == Some(
                old(self).source.current_frame.data[old(self).source.current_frame_offset as int],
            ),
    {
        match self.source.next() {
            Some(v) => {
                self.tracker.on_sample();
                Some(v)
            },
            None => None,
        }
    }

    /// The tracked elapsed time in milliseconds.
    pub fn elapsed_ms(&self) -> (r: u64)
        requires
            self.wf(),
            self.tracker.frames <= u64::MAX / 1000,
        ensures
            r == self.tracker.elapsed_spec(),
    {
        self.tracker.elapsed_ms()
    }
}

/// The tracked elapsed time is monotone: while samples flow (and only
/// then) the frame count grows, and more frames never mean less elapsed
/// time. While playback is paused no sample is consumed, so the value
/// is frozen.
pub proof fn lemma_elapsed_monotone(t1: ElapsedTracker, t2: ElapsedTracker)
    requires
        t1.wf(),
        t2.wf(),
        t1.sample_rate == t2.sample_rate,
        t1.frames <= t2.frames,
    ensures
        t1.elapsed_spec() <= t2.elapsed_spec(),
{
    lemma_div_is_ordered(t1.frames * 1000, t2.frames * 1000, t1.sample_rate as int);
}

} // verus!
