//! The keys the controller listens to, and what they ask of the application
//! as a whole.

use vstd::prelude::*;

verus! {

/// A key the controller listens to.
#[derive(Clone, Copy, Debug, PartialEq, Eq, Structural)]
pub enum Key {
    Escape,
    W,
    A,
    S,
    D,
    ArrowLeft,
    ArrowRight,
    ArrowUp,
    ArrowDown,
}

/// The keys that move and turn the body, each `true` while it is held down.
#[derive(Clone, Copy, Debug, Default, PartialEq, Eq, Structural)]
pub struct HeldKeys {
    pub w: bool,
    pub a: bool,
    pub s: bool,
    pub d: bool,
    pub arrow_left: bool,
    pub arrow_right: bool,
    pub arrow_up: bool,
    pub arrow_down: bool,
}

/// The moving and turning keys among a set of keys that are down.
pub open spec fn held_of(down: Set<Key>) -> HeldKeys {
    HeldKeys {
        w: down.contains(Key::W),
        a: down.contains(Key::A),
        s: down.contains(Key::S),
        d: down.contains(Key::D),
        arrow_left: down.contains(Key::ArrowLeft),
        arrow_right: down.contains(Key::ArrowRight),
        arrow_up: down.contains(Key::ArrowUp),
        arrow_down: down.contains(Key::ArrowDown),
    }
}

/// One if the key is held, zero if not.
pub open spec fn held(key: bool) -> int {
    if key {
        1
    } else {
        0
    }
}

/// What the application does after a frame's input.
#[derive(Clone, Copy, Debug, PartialEq, Eq, Structural)]
pub enum AppCommand {
    /// Keep running.
    Continue,
    /// Leave the main loop, reporting success.
    Exit,
}

/// The command for a frame, given whether Escape went down in it.
pub open spec fn command_for(escape_just_pressed: bool) -> AppCommand {
    if escape_just_pressed {
        AppCommand::Exit
    } else {
        AppCommand::Continue
    }
}

/// Decides whether the application goes on: it exits in the frame in which
/// Escape went down, and in no other.
pub fn exit_command(escape_just_pressed: bool) -> (out: AppCommand)
    ensures
        out == command_for(escape_just_pressed),
{
    if escape_just_pressed {
        AppCommand::Exit
    } else {
        AppCommand::Continue
    }
}

} // verus!
