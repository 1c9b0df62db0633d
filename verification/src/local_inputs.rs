//! Local input provider: samples the input of every local player once per
//! tick and publishes it by player handle.

use crate::controls::{encode, wasd_reading, Controls};
use crate::keyboard::held_keys;
use bevy::input::keyboard::KeyCode;
use bevy::input::ButtonInput;
use bevy::utils::HashMap;
use vstd::prelude::*;

verus! {

/// The inputs of the local players by handle, held in bevy's hash map.
/// Verus does not look inside; [`input_entries`] names what the map holds.
#[verifier::external_body]
pub struct LocalInputMap {
    inner: HashMap<usize, Controls>,
}

/// The entries of the map: the handles it has, each with its controls.
pub uninterp spec fn input_entries(inputs: LocalInputMap) -> Map<usize, Controls>;

/// Calls `HashMap::new`: the new map has no entries.
#[verifier::external_body]
pub(crate) fn map_new() -> (created: LocalInputMap)
    ensures
        input_entries(created) =~= Map::empty(),
{
    LocalInputMap { inner: HashMap::new() }
}

/// Calls `HashMap::insert`: afterwards the map has `controls` at `handle`,
/// in place of what it may have had there, and its other entries as before.
#[verifier::external_body]
pub(crate) fn map_insert(inputs: &mut LocalInputMap, handle: usize, controls: Controls)
    ensures
        input_entries(*final(inputs)) == input_entries(*old(inputs)).insert(handle, controls),
{
    inputs.inner.insert(handle, controls);
}

/// Calls `HashMap::get`: the controls at `handle`, if the map has that handle.
#[verifier::external_body]
pub(crate) fn map_get(inputs: &LocalInputMap, handle: usize) -> (found: Option<Controls>)
    ensures
        found == if input_entries(*inputs).dom().contains(handle) {
            Some(input_entries(*inputs)[handle])
        } else {
            None
        },
{
    inputs.inner.get(&handle).copied()
}

/// The mask that a local player publishes in a tick: nothing while the
/// physics is not enabled, else the reading of the first binding profile.
pub open spec fn sampled_input(held: Set<KeyCode>, physics_enabled: bool) -> Controls {
    if physics_enabled {
        Controls { input: encode(wasd_reading(held)) }
    } else {
        Controls { input: 0 }
    }
}

/// The published inputs: every local player has the sampled input, and
/// nobody else has any.
pub open spec fn published_inputs(
    local_players: Seq<usize>,
    held: Set<KeyCode>,
    physics_enabled: bool,
) -> Map<usize, Controls> {
    Map::new(
        |handle: usize| local_players.contains(handle),
        |handle: usize| sampled_input(held, physics_enabled),
    )
}

impl LocalInputMap {
    /// The controls published for `handle`, if it is a handle of the map.
    pub fn get(&self, handle: usize) -> (found: Option<Controls>)
        ensures
            found == if input_entries(*self).dom().contains(handle) {
                Some(input_entries(*self)[handle])
            } else {
                None
            },
    {
        map_get(self, handle)
    }
}

/// Samples the input of each local player and publishes it by handle.
pub fn read_network_controls(
    local_players: &Vec<usize>,
    keyboard_input: &ButtonInput<KeyCode>,
    physics_enabled: bool,
) -> (local_inputs: LocalInputMap)
    ensures
        input_entries(local_inputs) == published_inputs(
            local_players@,
            held_keys(*keyboard_input),
            physics_enabled,
        ),
{
    let mut local_inputs = map_new();
    let mut index: usize = 0;
    while index < local_players.len()
        invariant
            index <= local_players@.len(),
            input_entries(local_inputs) =~= published_inputs(
                local_players@.take(index as int),
                held_keys(*keyboard_input),
                physics_enabled,
            ),
        decreases local_players@.len() - index,
    {
        let handle = local_players[index];
        let controls = if !physics_enabled {
            Controls::empty()
        } else {
            Controls::from_wasd(keyboard_input)
        };
        map_insert(&mut local_inputs, handle, controls);
        proof {
            let before = local_players@.take(index as int);
            let after = local_players@.take(index as int + 1);
            assert(after =~= before.push(handle));
            assert forall|h: usize| after.contains(h) <==> (before.contains(h) || h == handle) by {
                if before.contains(h) {
                    let i = choose|i: int| 0 <= i < before.len() && before[i] == h;
                    assert(after[i] == h);
                }
                if h == handle {
                    assert(after[index as int] == h);
                }
            }
        }
        index += 1;
    }
    proof {
        assert(local_players@.take(index as int) =~= local_players@);
    }
    local_inputs
}

} // verus!
