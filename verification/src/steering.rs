//! From held keys to what the player's body is asked to do: a list of unit
//! pushes along the body's own axes, and an axis to turn about.
//!
//! The pushes are kept as a list, in the order in which the keys are
//! consulted, and not summed up: the embedding program adds real-valued
//! vectors for them, and in rounded arithmetic the order of a sum shows.

use bevy::input::keyboard::KeyCode;
use bevy::input::ButtonInput;
use vstd::prelude::*;
use crate::input::{held_keys, pressed_keys};
use crate::keys::{held, held_of, HeldKeys};

verus! {

/// Walking factor: the horizontal velocity is the unit direction of the
/// summed pushes, times this, times the length of the frame in seconds.
pub const MOVE_SPEED: u32 = 500;

/// Turning factor: the angular velocity is the unit vector along the turn
/// axis, times this, times the length of the frame in seconds.
pub const TURN_SPEED: u32 = 100;

/// A push of length one along one of the body's horizontal axes.
#[derive(Clone, Copy, Debug, PartialEq, Eq, Structural)]
pub enum Nudge {
    /// Along the direction the body faces.
    Forward,
    /// Against the body's right.
    Left,
    /// Against the direction the body faces.
    Backward,
    /// Along the body's right.
    Right,
}

impl Nudge {
    /// How far the push goes along the facing direction.
    pub open spec fn along_forward(self) -> int {
        match self {
            Nudge::Forward => 1,
            Nudge::Backward => -1,
            _ => 0,
        }
    }

    /// How far the push goes along the body's right.
    pub open spec fn along_right(self) -> int {
        match self {
            Nudge::Right => 1,
            Nudge::Left => -1,
            _ => 0,
        }
    }
}

/// The one push of a key that is held, nothing for one that is not.
pub open spec fn nudge_if(key: bool, nudge: Nudge) -> Seq<Nudge> {
    if key {
        seq![nudge]
    } else {
        Seq::empty()
    }
}

/// The pushes that the held keys ask for: W forward, A left, S backward,
/// D right, in that order.
pub open spec fn nudges_for(keys: HeldKeys) -> Seq<Nudge> {
    nudge_if(keys.w, Nudge::Forward) + nudge_if(keys.a, Nudge::Left) + nudge_if(
        keys.s,
        Nudge::Backward,
    ) + nudge_if(keys.d, Nudge::Right)
}

/// Sum of the pushes along the facing direction.
pub open spec fn net_forward(nudges: Seq<Nudge>) -> int
    decreases nudges.len(),
{
    if nudges.len() == 0 {
        0
    } else {
        net_forward(nudges.drop_last()) + nudges.last().along_forward()
    }
}

/// Sum of the pushes along the body's right.
pub open spec fn net_right(nudges: Seq<Nudge>) -> int
    decreases nudges.len(),
{
    if nudges.len() == 0 {
        0
    } else {
        net_right(nudges.drop_last()) + nudges.last().along_right()
    }
}

/// Lists the pushes for the held movement keys.
pub fn movement_nudges(keys: &HeldKeys) -> (out: Vec<Nudge>)
    ensures
        out@ == nudges_for(*keys),
{
    let mut out: Vec<Nudge> = Vec::new();
    if keys.w {
        out.push(Nudge::Forward);
    }
    if keys.a {
        out.push(Nudge::Left);
    }
    if keys.s {
        out.push(Nudge::Backward);
    }
    if keys.d {
        out.push(Nudge::Right);
    }
    assert(out@ =~= nudges_for(*keys));
    out
}

/// An axis with whole-numbered components, in the body's frame.
#[derive(Clone, Copy, Debug, PartialEq, Eq, Structural)]
pub struct TurnAxis {
    pub x: i32,
    pub y: i32,
    pub z: i32,
}

impl View for TurnAxis {
    type V = (int, int, int);

    open spec fn view(&self) -> (int, int, int) {
        (self.x as int, self.y as int, self.z as int)
    }
}

/// The axis that the held arrow keys ask the body to turn about: left and
/// right about the vertical, one against the other; up and down about the
/// first axis, likewise. Nothing turns about the third.
pub open spec fn turn_for(keys: HeldKeys) -> (int, int, int) {
    (
        held(keys.arrow_up) - held(keys.arrow_down),
        held(keys.arrow_left) - held(keys.arrow_right),
        0,
    )
}

/// Computes the axis to turn about from the held arrow keys.
pub fn turn_axis(keys: &HeldKeys) -> (out: TurnAxis)
    ensures
        out@ == turn_for(*keys),
{
    let mut x: i32 = 0;
    let mut y: i32 = 0;
    if keys.arrow_left {
        y = y + 1;
    }
    if keys.arrow_right {
        y = y - 1;
    }
    if keys.arrow_up {
        x = x + 1;
    }
    if keys.arrow_down {
        x = x - 1;
    }
    TurnAxis { x, y, z: 0 }
}

/// What a frame's keys ask of the body.
#[derive(Debug, PartialEq, Eq)]
pub struct Steering {
    /// The pushes to sum, in order.
    pub nudges: Vec<Nudge>,
    /// The axis to turn about.
    pub turn: TurnAxis,
}

/// Reads the keyboard and decides how the body is to move and turn in this
/// frame.
pub fn player_movement(input: &ButtonInput<KeyCode>) -> (out: Steering)
    ensures
        out.nudges@ == nudges_for(held_of(pressed_keys(*input))),
        out.turn@ == turn_for(held_of(pressed_keys(*input))),
{
    let keys = held_keys(input);
    Steering { nudges: movement_nudges(&keys), turn: turn_axis(&keys) }
}

/// Opposite keys cancel: summed up, the pushes go forward by W less S and
/// to the right by D less A.
pub proof fn lemma_net_of_nudges(keys: HeldKeys)
    ensures
        net_forward(nudges_for(keys)) == held(keys.w) - held(keys.s),
        net_right(nudges_for(keys)) == held(keys.d) - held(keys.a),
{
    let a = nudge_if(keys.w, Nudge::Forward);
    let b = a + nudge_if(keys.a, Nudge::Left);
    let c = b + nudge_if(keys.s, Nudge::Backward);
    let e = c + nudge_if(keys.d, Nudge::Right);
    lemma_net_append(Seq::empty(), keys.w, Nudge::Forward);
    lemma_net_append(a, keys.a, Nudge::Left);
    lemma_net_append(b, keys.s, Nudge::Backward);
    lemma_net_append(c, keys.d, Nudge::Right);
    assert(Seq::<Nudge>::empty() + nudge_if(keys.w, Nudge::Forward) =~= a);
    assert(e == nudges_for(keys));
}

/// Appending a key's push adds that push to both sums, if the key is held.
proof fn lemma_net_append(before: Seq<Nudge>, key: bool, nudge: Nudge)
    ensures
        net_forward(before + nudge_if(key, nudge)) == net_forward(before) + held(key)
            * nudge.along_forward(),
        net_right(before + nudge_if(key, nudge)) == net_right(before) + held(key)
            * nudge.along_right(),
{
    let after = before + nudge_if(key, nudge);
    if key {
        assert(after.drop_last() =~= before);
        assert(after.last() == nudge);
    } else {
        assert(after =~= before);
    }
}

} // verus!
