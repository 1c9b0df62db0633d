//! Input encoder: packs the state of the six controls into a sixteen-bit
//! mask that is sent to the other peers.

use crate::keyboard::{held_keys, key_code, key_code_of, key_pressed, Key};
use bevy::input::keyboard::KeyCode;
use bevy::input::ButtonInput;
use vstd::prelude::*;

verus! {

/// Bit of the accelerate control.
pub const INPUT_ACCELERATE: u16 = 1;

/// Bit of the reverse control.
pub const INPUT_REVERSE: u16 = 2;

/// Bit of the brake control.
pub const INPUT_BREAK: u16 = 4;

/// Bit of the steer-right control.
pub const INPUT_STEER_RIGHT: u16 = 8;

/// Bit of the steer-left control.
pub const INPUT_STEER_LEFT: u16 = 16;

/// Bit of the park control.
pub const INPUT_PARK: u16 = 32;

/// The six controls as separate truth values: what a mask means.
pub struct ControlState {
    pub accelerate: bool,
    pub reverse: bool,
    pub brake: bool,
    pub steer_right: bool,
    pub steer_left: bool,
    pub park: bool,
}

/// The state of up to sixteen controls, one bit each.
#[derive(Copy, Clone, Debug, PartialEq, Eq, Structural)]
pub struct Controls {
    pub input: u16,
}

impl View for Controls {
    type V = ControlState;

    /// A control is on exactly when its bit is set.
    open spec fn view(&self) -> ControlState {
        ControlState {
            accelerate: self.input & INPUT_ACCELERATE != 0,
            reverse: self.input & INPUT_REVERSE != 0,
            brake: self.input & INPUT_BREAK != 0,
            steer_right: self.input & INPUT_STEER_RIGHT != 0,
            steer_left: self.input & INPUT_STEER_LEFT != 0,
            park: self.input & INPUT_PARK != 0,
        }
    }
}

/// The bit of a control if the control is on, else no bit.
pub open spec fn flag(on: bool, bit: u16) -> u16 {
    if on {
        bit
    } else {
        0
    }
}

/// The mask that has exactly the bits of the controls that are on in `state`.
pub open spec fn encode(state: ControlState) -> u16 {
    flag(state.accelerate, INPUT_ACCELERATE) | flag(state.reverse, INPUT_REVERSE) | flag(
        state.brake,
        INPUT_BREAK,
    ) | flag(state.steer_right, INPUT_STEER_RIGHT) | flag(state.steer_left, INPUT_STEER_LEFT)
        | flag(state.park, INPUT_PARK)
}

/// The state of the controls when the keys in `held` are down and each
/// control is bound to the key given for it.
pub open spec fn reading(
    held: Set<KeyCode>,
    accelerator: KeyCode,
    reverser: KeyCode,
    breaker: KeyCode,
    steer_right: KeyCode,
    steer_left: KeyCode,
    park: KeyCode,
) -> ControlState {
    ControlState {
        accelerate: held.contains(accelerator),
        reverse: held.contains(reverser),
        brake: held.contains(breaker),
        steer_right: held.contains(steer_right),
        steer_left: held.contains(steer_left),
        park: held.contains(park),
    }
}

/// The reading under the first binding profile: W, S, C, D, A, V.
pub open spec fn wasd_reading(held: Set<KeyCode>) -> ControlState {
    reading(
        held,
        key_code_of(Key::KeyW),
        key_code_of(Key::KeyS),
        key_code_of(Key::KeyC),
        key_code_of(Key::KeyD),
        key_code_of(Key::KeyA),
        key_code_of(Key::KeyV),
    )
}

/// The reading under the second binding profile: I, K, N, L, J, B.
pub open spec fn ijkl_reading(held: Set<KeyCode>) -> ControlState {
    reading(
        held,
        key_code_of(Key::KeyI),
        key_code_of(Key::KeyK),
        key_code_of(Key::KeyN),
        key_code_of(Key::KeyL),
        key_code_of(Key::KeyJ),
        key_code_of(Key::KeyB),
    )
}

/// Every control has one bit of its own: each of the six masks is a single
/// bit, no two of them share a bit, and together they fill the low six bits.
pub proof fn lemma_control_bits_disjoint()
    ensures
        INPUT_ACCELERATE == 1u16 << 0u16,
        INPUT_REVERSE == 1u16 << 1u16,
        INPUT_BREAK == 1u16 << 2u16,
        INPUT_STEER_RIGHT == 1u16 << 3u16,
        INPUT_STEER_LEFT == 1u16 << 4u16,
        INPUT_PARK == 1u16 << 5u16,
        forall|i: u16, j: u16| i < j < 6 ==> #[trigger] (1u16 << i) & #[trigger] (1u16 << j) == 0,
        INPUT_ACCELERATE | INPUT_REVERSE | INPUT_BREAK | INPUT_STEER_RIGHT | INPUT_STEER_LEFT
            | INPUT_PARK == 63,
{
    assert(1u16 << 0u16 == 1 && 1u16 << 1u16 == 2 && 1u16 << 2u16 == 4 && 1u16 << 3u16 == 8
        && 1u16 << 4u16 == 16 && 1u16 << 5u16 == 32) by (bit_vector);
    assert(forall|i: u16, j: u16| i < j < 6 ==> #[trigger] (1u16 << i) & #[trigger] (1u16 << j)
        == 0) by (bit_vector);
    assert(1u16 | 2u16 | 4u16 | 8u16 | 16u16 | 32u16 == 63) by (bit_vector);
}

/// Six masks, each either empty or one chosen bit, joined: every bit test on
/// the join gives back the mask it came from, and no other bit is set.
proof fn lemma_join_bits(a: u16, r: u16, b: u16, sr: u16, sl: u16, p: u16)
    by (bit_vector)
    requires
        a == 0 || a == 1,
        r == 0 || r == 2,
        b == 0 || b == 4,
        sr == 0 || sr == 8,
        sl == 0 || sl == 16,
        p == 0 || p == 32,
    ensures
        ((a | r | b | sr | sl | p) & 1 != 0) == (a != 0),
        ((a | r | b | sr | sl | p) & 2 != 0) == (r != 0),
        ((a | r | b | sr | sl | p) & 4 != 0) == (b != 0),
        ((a | r | b | sr | sl | p) & 8 != 0) == (sr != 0),
        ((a | r | b | sr | sl | p) & 16 != 0) == (sl != 0),
        ((a | r | b | sr | sl | p) & 32 != 0) == (p != 0),
        (a | r | b | sr | sl | p) & !63u16 == 0,
        (a | r | b | sr | sl | p) == a + r + b + sr + sl + p,
{
}

/// Encoding sets exactly the bits of the controls that are on and no others:
/// decoding the mask gives the state back, and the mask is the sum of the
/// bits of the controls that are on.
pub proof fn lemma_encode_exact(state: ControlState)
    ensures
        (Controls { input: encode(state) })@ == state,
        encode(state) & !63u16 == 0,
        encode(state) == flag(state.accelerate, 1) + flag(state.reverse, 2) + flag(state.brake, 4)
            + flag(state.steer_right, 8) + flag(state.steer_left, 16) + flag(state.park, 32),
{
    lemma_join_bits(
        flag(state.accelerate, 1),
        flag(state.reverse, 2),
        flag(state.brake, 4),
        flag(state.steer_right, 8),
        flag(state.steer_left, 16),
        flag(state.park, 32),
    );
}

/// Two states with the same encoding are the same state.
pub proof fn lemma_encode_injective(first: ControlState, second: ControlState)
    requires
        encode(first) == encode(second),
    ensures
        first == second,
{
    lemma_encode_exact(first);
    lemma_encode_exact(second);
}

/// Setting a bit that is given as no bit changes nothing.
proof fn lemma_set_flag(mask: u16, on: bool, bit: u16)
    ensures
        mask | flag(on, bit) == if on {
            mask | bit
        } else {
            mask
        },
{
    assert(mask | 0 == mask) by (bit_vector);
}

impl Controls {
    pub fn accelerating(&self) -> (on: bool)
        ensures
            on == self@.accelerate,
    {
        (self.input & INPUT_ACCELERATE) != 0
    }

    pub fn reversing(&self) -> (on: bool)
        ensures
            on == self@.reverse,
    {
        (self.input & INPUT_REVERSE) != 0
    }

    pub fn breaking(&self) -> (on: bool)
        ensures
            on == self@.brake,
    {
        (self.input & INPUT_BREAK) != 0
    }

    pub fn steering_right(&self) -> (on: bool)
        ensures
            on == self@.steer_right,
    {
        (self.input & INPUT_STEER_RIGHT) != 0
    }

    pub fn steering_left(&self) -> (on: bool)
        ensures
            on == self@.steer_left,
    {
        (self.input & INPUT_STEER_LEFT) != 0
    }

    pub fn parking(&self) -> (on: bool)
        ensures
            on == self@.park,
    {
        (self.input & INPUT_PARK) != 0
    }

    /// Whether the car is steered in any direction.
    pub fn steering_any(&self) -> (on: bool)
        ensures
            on == (self@.steer_right || self@.steer_left),
    {
        self.steering_right() || self.steering_left()
    }

    /// Reads the six bound keys from `input` and sets the bit of each control
    /// whose key is held down.
    pub fn from_keys(
        input: &ButtonInput<KeyCode>,
        accelerator: KeyCode,
        reverser: KeyCode,
        breaker: KeyCode,
        steer_right: KeyCode,
        steer_left: KeyCode,
        park: KeyCode,
    ) -> (controls: Controls)
        ensures
            controls.input == encode(
                reading(
                    held_keys(*input),
                    accelerator,
                    reverser,
                    breaker,
                    steer_right,
                    steer_left,
                    park,
                ),
            ),
            controls@ == reading(
                held_keys(*input),
                accelerator,
                reverser,
                breaker,
                steer_right,
                steer_left,
                park,
            ),
    {
        let ghost state = reading(
            held_keys(*input),
            accelerator,
            reverser,
            breaker,
            steer_right,
            steer_left,
            park,
        );
        let mut serialized: u16 = 0;

        if key_pressed(input, accelerator) {
            serialized |= INPUT_ACCELERATE
        }
        proof {
            assert(0u16 | 1u16 == 1u16) by (bit_vector);
            assert(serialized == flag(state.accelerate, INPUT_ACCELERATE));
        }
        let ghost before: u16 = serialized;
        if key_pressed(input, reverser) {
            serialized |= INPUT_REVERSE
        }
        proof {
            lemma_set_flag(before, state.reverse, INPUT_REVERSE);
        }
        let ghost before: u16 = serialized;
        if key_pressed(input, breaker) {
            serialized |= INPUT_BREAK
        }
        proof {
            lemma_set_flag(before, state.brake, INPUT_BREAK);
        }
        let ghost before: u16 = serialized;
        if key_pressed(input, steer_right) {
            serialized |= INPUT_STEER_RIGHT
        }
        proof {
            lemma_set_flag(before, state.steer_right, INPUT_STEER_RIGHT);
        }
        let ghost before: u16 = serialized;
        if key_pressed(input, steer_left) {
            serialized |= INPUT_STEER_LEFT
        }
        proof {
            lemma_set_flag(before, state.steer_left, INPUT_STEER_LEFT);
        }
        let ghost before: u16 = serialized;
        if key_pressed(input, park) {
            serialized |= INPUT_PARK
        }
        proof {
            lemma_set_flag(before, state.park, INPUT_PARK);
            lemma_encode_exact(state);
        }

        Controls { input: serialized }
    }

    /// The mask with no control on.
    pub fn empty() -> (controls: Controls)
        ensures
            controls.input == 0,
            !controls@.accelerate,
            !controls@.reverse,
            !controls@.brake,
            !controls@.steer_right,
            !controls@.steer_left,
            !controls@.park,
    {
        proof {
            assert(0u16 & 1 == 0 && 0u16 & 2 == 0 && 0u16 & 4 == 0 && 0u16 & 8 == 0 && 0u16 & 16
                == 0 && 0u16 & 32 == 0) by (bit_vector);
        }
        Controls { input: 0 }
    }

    /// Reads the controls under the first binding profile.
    pub fn from_wasd(input: &ButtonInput<KeyCode>) -> (controls: Controls)
        ensures
            controls.input == encode(wasd_reading(held_keys(*input))),
            controls@ == wasd_reading(held_keys(*input)),
    {
        Controls::from_keys(
            input,
            key_code(Key::KeyW),
            key_code(Key::KeyS),
            key_code(Key::KeyC),
            key_code(Key::KeyD),
            key_code(Key::KeyA),
            key_code(Key::KeyV),
        )
    }

    /// Reads the controls under the second binding profile.
    pub fn from_ijkl(input: &ButtonInput<KeyCode>) -> (controls: Controls)
        ensures
            controls.input == encode(ijkl_reading(held_keys(*input))),
            controls@ == ijkl_reading(held_keys(*input)),
    {
        Controls::from_keys(
            input,
            key_code(Key::KeyI),
            key_code(Key::KeyK),
            key_code(Key::KeyN),
            key_code(Key::KeyL),
            key_code(Key::KeyJ),
            key_code(Key::KeyB),
        )
    }

    /// Reads the controls of the `n`-th local player: the first player has
    /// the first binding profile, every other player the second.
    pub fn for_nth_player(input: &ButtonInput<KeyCode>, n: usize) -> (controls: Controls)
        ensures
            n == 0 ==> controls.input == encode(wasd_reading(held_keys(*input))),
            n != 0 ==> controls.input == encode(ijkl_reading(held_keys(*input))),
            n == 0 ==> controls@ == wasd_reading(held_keys(*input)),
            n != 0 ==> controls@ == ijkl_reading(held_keys(*input)),
    {
        if n == 0 {
            Controls::from_wasd(input)
        } else {
            Controls::from_ijkl(input)
        }
    }
}

} // verus!
