//! The stages of one tick of the game schedule, in the order they run.

use vstd::prelude::*;

verus! {

/// Rollback bookkeeping: frame counters, rollback status, state restore.
#[derive(Clone, Debug, PartialEq, Eq, Hash, Structural)]
pub struct Rollback;

/// The game logic itself.
#[derive(Clone, Debug, PartialEq, Eq, Hash, Structural)]
pub struct Game;

/// Storing the simulation snapshot and its checksum, after the physics step.
#[derive(Clone, Debug, PartialEq, Eq, Hash, Structural)]
pub struct SaveAndChecksum;

} // verus!
