//! Playback state machine.
//!
//! The player is a three-state machine (`Playing`, `Paused`, `Stopped`)
//! driven by timer ticks and user commands. Real audio output lives
//! outside this crate: each transition reports the command that the
//! caller must apply to its audio sink, and the caller feeds back what
//! it observed of the sink (whether its queue has drained) together
//! with the tracked elapsed time.

use vstd::prelude::*;

verus! {

/// The three playback states. `Stopped` is terminal: it is entered when
/// the sink drains and is never left.
#[derive(Clone, Copy, PartialEq, Eq, Structural, Debug)]
pub enum PlayerState {
    Playing,
    Paused,
    Stopped,
}

/// Events driving the state machine: a periodic timer tick or a user
/// command.
#[derive(Clone, Copy, PartialEq, Eq, Structural, Debug)]
pub enum PlayerEvent {
    Tick,
    PlayPause,
    VolumeUp,
    VolumeDown,
}

/// The effect a transition asks of the real audio sink.
#[derive(Clone, Copy, PartialEq, Eq, Structural, Debug)]
pub enum SinkCommand {
    /// Leave the sink alone.
    Stay,
    /// Pause emission.
    Pause,
    /// Resume emission.
    Play,
    /// Apply this volume, in percent.
    SetVolume(u8),
}

/// Playback progress in percent: `elapsed / total * 100`, clamped to
/// `[0, 100]`; 0 when the total duration is unknown (zero).
pub open spec fn progress_of(elapsed_ms: u32, total_ms: u32) -> u8 {
    if total_ms == 0 {
        0u8
    } else if elapsed_ms >= total_ms {
        100u8
    } else {
        ((elapsed_ms * 100) / (total_ms as int)) as u8
    }
}

/// The player state machine, with the UI-facing snapshot values it
/// maintains (progress and volume in percent, last observed elapsed
/// time, and the track's total duration).
pub struct Player {
    pub state: PlayerState,
    pub progress: u8,
    pub volume: u8,
    pub elapsed_ms: u32,
    pub total_ms: u32,
}

impl Player {
    /// Snapshot values stay in range, and a stopped player always shows
    /// zero progress.
    pub open spec fn wf(self) -> bool {
        &&& self.progress <= 100
        &&& self.volume <= 100
        &&& (self.state == PlayerState::Stopped ==> self.progress == 0)
    }

    /// The transition function: next player value and sink effect for
    /// one event, given whether the sink's queue has drained and the
    /// elapsed time tracked so far.
    pub open spec fn step(
        pre: Player,
        msg: PlayerEvent,
        sink_empty: bool,
        elapsed_ms: u32,
    ) -> (Player, SinkCommand) {
        match msg {
            PlayerEvent::Tick => {
                if pre.state == PlayerState::Stopped {
                    (pre, SinkCommand::Stay)
                } else if sink_empty {
                    (
                        Player { state: PlayerState::Stopped, progress: 0u8, ..pre },
                        SinkCommand::Stay,
                    )
                } else {
                    (
                        Player {
                            progress: progress_of(elapsed_ms, pre.total_ms),
                            elapsed_ms: elapsed_ms,
                            ..pre
                        },
                        SinkCommand::Stay,
                    )
                }
            },
            PlayerEvent::PlayPause => {
                if pre.state == PlayerState::Playing {
                    (Player { state: PlayerState::Paused, ..pre }, SinkCommand::Pause)
                } else if pre.state == PlayerState::Paused {
                    (Player { state: PlayerState::Playing, ..pre }, SinkCommand::Play)
                } else {
                    (pre, SinkCommand::Stay)
                }
            },
            PlayerEvent::VolumeUp => {
                if pre.state == PlayerState::Stopped || pre.volume >= 100 {
                    (pre, SinkCommand::Stay)
                } else {
                    (
                        Player { volume: (pre.volume + 1) as u8, ..pre },
                        SinkCommand::SetVolume((pre.volume + 1) as u8),
                    )
                }
            },
            PlayerEvent::VolumeDown => {
                if pre.state == PlayerState::Stopped || pre.volume == 0 {
                    (pre, SinkCommand::Stay)
                } else {
                    (
                        Player { volume: (pre.volume - 1) as u8, ..pre },
                        SinkCommand::SetVolume((pre.volume - 1) as u8),
                    )
                }
            },
        }
    }

    /// A fresh player: playing from the start of a track of the given
    /// total duration, at full volume.
    pub fn new(total_ms: u32) -> (p: Player)
        ensures
            p == (Player {
                state: PlayerState::Playing,
                progress: 0u8,
                volume: 100u8,
                elapsed_ms: 0u32,
                total_ms: total_ms,
            }),
            p.wf(),
    {
        Player {
            state: PlayerState::Playing,
            progress: 0,
            volume: 100,
            elapsed_ms: 0,
            total_ms: total_ms,
        }
    }

    /// Apply one event. `sink_empty` is the caller's observation of its
    /// audio sink on this iteration; `elapsed_ms` is the tracked elapsed
    /// time. Returns the command the caller must apply to the sink.
    pub fn update(&mut self, msg: PlayerEvent, sink_empty: bool, elapsed_ms: u32) -> (cmd:
        SinkCommand)
        requires
            old(self).wf(),
        ensures
            (*final(self), cmd) == Player::step(*old(self), msg, sink_empty, elapsed_ms),
            final(self).wf(),
    {
        proof {
            lemma_step_preserves_wf(*self, msg, sink_empty, elapsed_ms);
        }
        match msg {
            PlayerEvent::Tick => {
                if self.state == PlayerState::Stopped {
                    SinkCommand::Stay
                } else if sink_empty {
                    self.state = PlayerState::Stopped;
                    self.progress = 0;
                    SinkCommand::Stay
                } else {
                    self.progress = compute_progress(elapsed_ms, self.total_ms);
                    self.elapsed_ms = elapsed_ms;
                    SinkCommand::Stay
                }
            },
            PlayerEvent::PlayPause => {
                if self.state == PlayerState::Playing {
                    self.state = PlayerState::Paused;
                    SinkCommand::Pause
                } else if self.state == PlayerState::Paused {
                    self.state = PlayerState::Playing;
                    SinkCommand::Play
                } else {
                    SinkCommand::Stay
                }
            },
            PlayerEvent::VolumeUp => {
                if self.state == PlayerState::Stopped || self.volume >= 100 {
                    SinkCommand::Stay
                } else {
                    self.volume = self.volume + 1;
                    SinkCommand::SetVolume(self.volume)
                }
            },
            PlayerEvent::VolumeDown => {
                if self.state == PlayerState::Stopped || self.volume == 0 {
                    SinkCommand::Stay
                } else {
                    self.volume = self.volume - 1;
                    SinkCommand::SetVolume(self.volume)
                }
            },
        }
    }

    /// Current state.
    pub fn state(&self) -> (s: PlayerState)
        ensures
            s == self.state,
    {
        self.state
    }

    /// Current progress in percent.
    pub fn progress(&self) -> (p: u8)
        ensures
            p == self.progress,
    {
        self.progress
    }

    /// Current volume in percent.
    pub fn volume(&self) -> (v: u8)
        ensures
            v == self.volume,
    {
        self.volume
    }

    /// Last observed elapsed time in milliseconds.
    pub fn elapsed(&self) -> (e: u32)
        ensures
            e == self.elapsed_ms,
    {
        self.elapsed_ms
    }
}

/// Progress in percent of the given elapsed and total times.
pub fn compute_progress(elapsed_ms: u32, total_ms: u32) -> (r: u8)
    ensures
        r == progress_of(elapsed_ms, total_ms),
        r <= 100,
{
    if total_ms == 0 {
        0
    } else if elapsed_ms >= total_ms {
        100
    } else {
        let wide: u64 = (elapsed_ms as u64) * 100 / (total_ms as u64);
        assert(wide < 100) by (nonlinear_arith)
            requires
                0 < total_ms as int,
                (elapsed_ms as int) < (total_ms as int),
                wide as int == (elapsed_ms as int) * 100 / (total_ms as int),
        ;
        wide as u8
    }
}

/// Every transition keeps the player well formed.
pub proof fn lemma_step_preserves_wf(
    pre: Player,
    msg: PlayerEvent,
    sink_empty: bool,
    elapsed_ms: u32,
)
    requires
        pre.wf(),
    ensures
        Player::step(pre, msg, sink_empty, elapsed_ms).0.wf(),
{
    if msg == PlayerEvent::Tick && pre.state != PlayerState::Stopped && !sink_empty {
        lemma_progress_in_range(elapsed_ms, pre.total_ms);
    }
}

/// Progress percent always lies in `[0, 100]`.
pub proof fn lemma_progress_in_range(elapsed_ms: u32, total_ms: u32)
    ensures
        progress_of(elapsed_ms, total_ms) <= 100,
{
    if total_ms != 0 && elapsed_ms < total_ms {
        assert((elapsed_ms * 100) / (total_ms as int) < 100) by (nonlinear_arith)
            requires
                0 < total_ms,
                elapsed_ms < total_ms,
        ;
    }
}

/// Pressing play/pause strictly alternates between `Playing` and
/// `Paused`: from either state one press lands in the other, and a
/// second press returns to the first. Once `Stopped`, play/pause does
/// nothing at all.
pub proof fn lemma_play_pause_alternates(pre: Player, sink_empty: bool, elapsed_ms: u32)
    requires
        pre.wf(),
    ensures
        pre.state == PlayerState::Playing ==> Player::step(
            pre,
            PlayerEvent::PlayPause,
            sink_empty,
            elapsed_ms,
        ).0.state == PlayerState::Paused,
        pre.state == PlayerState::Paused ==> Player::step(
            pre,
            PlayerEvent::PlayPause,
            sink_empty,
            elapsed_ms,
        ).0.state == PlayerState::Playing,
        pre.state == PlayerState::Stopped ==> Player::step(
            pre,
            PlayerEvent::PlayPause,
            sink_empty,
            elapsed_ms,
        ) == (pre, SinkCommand::Stay),
        pre.state != PlayerState::Stopped ==> Player::step(
            Player::step(pre, PlayerEvent::PlayPause, sink_empty, elapsed_ms).0,
            PlayerEvent::PlayPause,
            sink_empty,
            elapsed_ms,
        ).0.state == pre.state,
{
}

/// Volume adjustment is a no-op at the bounds and otherwise moves by
/// exactly one, staying within `[0, 100]`.
pub proof fn lemma_volume_steps(pre: Player, sink_empty: bool, elapsed_ms: u32)
    requires
        pre.wf(),
        pre.state != PlayerState::Stopped,
    ensures
        pre.volume == 100 ==> Player::step(pre, PlayerEvent::VolumeUp, sink_empty, elapsed_ms) == (
        pre,
        SinkCommand::Stay,
        ),
        pre.volume == 0 ==> Player::step(pre, PlayerEvent::VolumeDown, sink_empty, elapsed_ms) == (
        pre,
        SinkCommand::Stay,
        ),
        pre.volume < 100 ==> Player::step(
            pre,
            PlayerEvent::VolumeUp,
            sink_empty,
            elapsed_ms,
        ).0.volume == pre.volume + 1,
        pre.volume > 0 ==> Player::step(
            pre,
            PlayerEvent::VolumeDown,
            sink_empty,
            elapsed_ms,
        ).0.volume == pre.volume - 1,
        Player::step(pre, PlayerEvent::VolumeUp, sink_empty, elapsed_ms).0.volume <= 100,
        Player::step(pre, PlayerEvent::VolumeDown, sink_empty, elapsed_ms).0.volume <= 100,
{
}

/// On the first tick that finds the sink drained, a playing or paused
/// player stops, and its progress resets to zero on that same tick.
/// Every later tick leaves it stopped with progress zero.
pub proof fn lemma_stop_on_exhaustion(pre: Player, elapsed_ms: u32)
    requires
        pre.wf(),
    ensures
        pre.state != PlayerState::Stopped ==> Player::step(
            pre,
            PlayerEvent::Tick,
            true,
            elapsed_ms,
        ).0 == (Player { state: PlayerState::Stopped, progress: 0u8, ..pre }),
        pre.state == PlayerState::Stopped ==> Player::step(
            pre,
            PlayerEvent::Tick,
            true,
            elapsed_ms,
        ).0 == pre && pre.progress == 0,
{
}

} // verus!
