//! The keyboard as the input encoder sees it: which keys are held down.
//!
//! The keyboard state is bevy's `ButtonInput<KeyCode>`. Nothing in this module
//! is proved: it states what bevy's code does and the rest of the crate builds
//! on these statements.

use bevy::input::keyboard::KeyCode;
use bevy::input::ButtonInput;
use std::hash::Hash;
use vstd::prelude::*;

verus! {

/// bevy's `KeyCode`, carried through as an opaque value.
#[verifier::external_type_specification]
#[verifier::external_body]
pub struct ExKeyCode(KeyCode);

/// bevy's `ButtonInput`, carried through as an opaque value.
#[verifier::external_type_specification]
#[verifier::external_body]
#[verifier::reject_recursive_types(T)]
pub struct ExButtonInput<T: Copy + Eq + Hash + Send + Sync + 'static>(ButtonInput<T>);

/// The keys that the default binding profiles use.
#[derive(Copy, Clone, Debug, PartialEq, Eq, Structural)]
pub enum Key {
    KeyW,
    KeyS,
    KeyC,
    KeyD,
    KeyA,
    KeyV,
    KeyI,
    KeyK,
    KeyN,
    KeyL,
    KeyJ,
    KeyB,
}

/// The set of keys that `input` records as currently held down.
pub uninterp spec fn held_keys(input: ButtonInput<KeyCode>) -> Set<KeyCode>;

/// The bevy key code that stands for `key`.
pub uninterp spec fn key_code_of(key: Key) -> KeyCode;

/// Calls `ButtonInput::pressed`, which looks `key` up in the set of held keys.
/// The contract says just that: the answer is membership in [`held_keys`].
#[verifier::external_body]
pub(crate) fn key_pressed(input: &ButtonInput<KeyCode>, key: KeyCode) -> (pressed: bool)
    ensures
        pressed == held_keys(*input).contains(key),
{
    input.pressed(key)
}

/// Builds the `KeyCode` variant of the same name as `key`. The contract only
/// names the result, so that two calls on one key are known to agree.
#[verifier::external_body]
pub(crate) fn key_code(key: Key) -> (code: KeyCode)
    ensures
        code == key_code_of(key),
{
    match key {
        Key::KeyW => KeyCode::KeyW,
        Key::KeyS => KeyCode::KeyS,
        Key::KeyC => KeyCode::KeyC,
        Key::KeyD => KeyCode::KeyD,
        Key::KeyA => KeyCode::KeyA,
        Key::KeyV => KeyCode::KeyV,
        Key::KeyI => KeyCode::KeyI,
        Key::KeyK => KeyCode::KeyK,
        Key::KeyN => KeyCode::KeyN,
        Key::KeyL => KeyCode::KeyL,
        Key::KeyJ => KeyCode::KeyJ,
        Key::KeyB => KeyCode::KeyB,
    }
}

} // verus!
