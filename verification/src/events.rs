//! Control-loop events.
//!
//! A periodic timer and a keyboard poller are fanned into one event
//! stream; the control loop consumes one event per iteration. The
//! fan-in itself (threads, channels, the poll sleep) belongs to the
//! caller — here live the decisions: what each key means, and what one
//! loop iteration does to the player.

use vstd::prelude::*;
use crate::player::{Player, PlayerEvent, SinkCommand};

verus! {

/// A key the poller observed, reduced to what the control loop cares
/// about.
#[derive(Clone, Copy, PartialEq, Eq, Structural, Debug)]
pub enum KeyInput {
    Char(char),
    Up,
    Down,
    Other,
}

/// One event of the merged stream: a timer tick or a key press.
#[derive(Clone, Copy, PartialEq, Eq, Structural, Debug)]
pub enum Event {
    Tick,
    Input(KeyInput),
}

/// What the control loop does with a key press.
#[derive(Clone, Copy, PartialEq, Eq, Structural, Debug)]
pub enum ControlAction {
    /// Feed this event to the player.
    Dispatch(PlayerEvent),
    /// Leave the loop.
    Quit,
    /// Nothing.
    Ignore,
}

/// The key bindings: `q` quits, space toggles play/pause, the arrow
/// keys adjust the volume, everything else is ignored.
pub open spec fn action_of(key: KeyInput) -> ControlAction {
    match key {
        KeyInput::Char(c) => if c == 'q' {
            ControlAction::Quit
        } else if c == ' ' {
            ControlAction::Dispatch(PlayerEvent::PlayPause)
        } else {
            ControlAction::Ignore
        },
        KeyInput::Up => ControlAction::Dispatch(PlayerEvent::VolumeUp),
        KeyInput::Down => ControlAction::Dispatch(PlayerEvent::VolumeDown),
        KeyInput::Other => ControlAction::Ignore,
    }
}

/// Decide what a key press means.
pub fn action_for_key(key: KeyInput) -> (r: ControlAction)
    ensures
        r == action_of(key),
{
    match key {
        KeyInput::Char(c) => {
            if c == 'q' {
                ControlAction::Quit
            } else if c == ' ' {
                ControlAction::Dispatch(PlayerEvent::PlayPause)
            } else {
                ControlAction::Ignore
            }
        },
        KeyInput::Up => ControlAction::Dispatch(PlayerEvent::VolumeUp),
        KeyInput::Down => ControlAction::Dispatch(PlayerEvent::VolumeDown),
        KeyInput::Other => ControlAction::Ignore,
    }
}

/// One control-loop iteration over the player model: the player after
/// the event, the sink command to apply, and whether the loop exits.
/// A tick that finds (or leaves) the player stopped ends the loop on
/// that same iteration; `q` ends it at once.
pub open spec fn control_of(
    pre: Player,
    ev: Event,
    sink_empty: bool,
    elapsed_ms: u32,
) -> (Player, SinkCommand, bool) {
    match ev {
        Event::Tick => {
            let (p, cmd) = Player::step(pre, PlayerEvent::Tick, sink_empty, elapsed_ms);
            (p, cmd, p.state == crate::player::PlayerState::Stopped)
        },
        Event::Input(key) => match action_of(key) {
            ControlAction::Quit => (pre, SinkCommand::Stay, true),
            ControlAction::Dispatch(pe) => {
                let (p, cmd) = Player::step(pre, pe, sink_empty, elapsed_ms);
                (p, cmd, false)
            },
            ControlAction::Ignore => (pre, SinkCommand::Stay, false),
        },
    }
}

/// Run one control-loop iteration: apply the event to the player and
/// report the sink command plus whether the loop is over.
pub fn control_step(player: &mut Player, ev: Event, sink_empty: bool, elapsed_ms: u32) -> (r: (
    SinkCommand,
    bool,
))
    requires
        old(player).wf(),
    ensures
        final(player).wf(),
        (*final(player), r.0, r.1) == control_of(*old(player), ev, sink_empty, elapsed_ms),
{
    match ev {
        Event::Tick => {
            let cmd = player.update(PlayerEvent::Tick, sink_empty, elapsed_ms);
            let stopped = player.state() == crate::player::PlayerState::Stopped;
            (cmd, stopped)
        },
        Event::Input(key) => {
            match action_for_key(key) {
                ControlAction::Quit => (SinkCommand::Stay, true),
                ControlAction::Dispatch(pe) => {
                    let cmd = player.update(pe, sink_empty, elapsed_ms);
                    (cmd, false)
                },
                ControlAction::Ignore => (SinkCommand::Stay, false),
            }
        },
    }
}

} // verus!
