//! Reading the engine's keyboard state.
//!
//! `ButtonInput<KeyCode>` is the engine's record of which keys are down and
//! which went down in the current frame. Its inside is not visible to the
//! verifier, so what it holds is given a name, and the two queries made of
//! it are trusted to answer by that name.

use bevy::input::keyboard::KeyCode;
use bevy::input::ButtonInput;
use std::hash::Hash;
use vstd::prelude::*;
use crate::keys::{command_for, exit_command, held_of, AppCommand, HeldKeys, Key};

verus! {

/// The engine's `ButtonInput`, carried as an opaque value.
#[verifier::external_type_specification]
#[verifier::external_body]
#[verifier::reject_recursive_types(T)]
pub struct ExButtonInput<T: Copy + Eq + Hash + Send + Sync + 'static>(ButtonInput<T>);

/// The engine's `KeyCode`, carried as an opaque value.
#[verifier::external_type_specification]
#[verifier::external_body]
pub struct ExKeyCode(KeyCode);

/// The keys of [`Key`] that the input records as being down.
pub uninterp spec fn pressed_keys(input: ButtonInput<KeyCode>) -> Set<Key>;

/// The keys of [`Key`] that the input records as having gone down in the
/// current frame.
pub uninterp spec fn just_pressed_keys(input: ButtonInput<KeyCode>) -> Set<Key>;

/// Calls `ButtonInput::pressed` with the engine's code for `key`. Trusted:
/// the answer is whether that code is in the input's set of pressed keys,
/// which is what `pressed_keys` names.
#[verifier::external_body]
fn is_pressed(input: &ButtonInput<KeyCode>, key: Key) -> (out: bool)
    ensures
        out == pressed_keys(*input).contains(key),
{
    input.pressed(
        match key {
            Key::Escape => KeyCode::Escape,
            Key::W => KeyCode::KeyW,
            Key::A => KeyCode::KeyA,
            Key::S => KeyCode::KeyS,
            Key::D => KeyCode::KeyD,
            Key::ArrowLeft => KeyCode::ArrowLeft,
            Key::ArrowRight => KeyCode::ArrowRight,
            Key::ArrowUp => KeyCode::ArrowUp,
            Key::ArrowDown => KeyCode::ArrowDown,
        },
    )
}

/// Calls `ButtonInput::just_pressed` with the engine's code for Escape.
/// Trusted: the answer is whether that code is in the input's set of keys
/// that went down in the current frame, which is what `just_pressed_keys`
/// names.
#[verifier::external_body]
fn escape_just_pressed(input: &ButtonInput<KeyCode>) -> (out: bool)
    ensures
        out == just_pressed_keys(*input).contains(Key::Escape),
{
    input.just_pressed(KeyCode::Escape)
}

/// Reads the moving and turning keys.
pub fn held_keys(input: &ButtonInput<KeyCode>) -> (out: HeldKeys)
    ensures
        out == held_of(pressed_keys(*input)),
{
    HeldKeys {
        w: is_pressed(input, Key::W),
        a: is_pressed(input, Key::A),
        s: is_pressed(input, Key::S),
        d: is_pressed(input, Key::D),
        arrow_left: is_pressed(input, Key::ArrowLeft),
        arrow_right: is_pressed(input, Key::ArrowRight),
        arrow_up: is_pressed(input, Key::ArrowUp),
        arrow_down: is_pressed(input, Key::ArrowDown),
    }
}

/// Decides from the keyboard whether the application goes on: it exits in
/// the frame in which Escape went down.
pub fn handle_input(input: &ButtonInput<KeyCode>) -> (out: AppCommand)
    ensures
        out == command_for(just_pressed_keys(*input).contains(Key::Escape)),
{
    exit_command(escape_just_pressed(input))
}

} // verus!
