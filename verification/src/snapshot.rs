//! Snapshot store: the latest serialized simulation state and its checksum.
//!
//! The store holds one snapshot. Each tick overwrites it; a tick whose state
//! could not be serialized leaves it as it was.

use crate::checksum::{checksum_of, fletcher16};
use vstd::prelude::*;

verus! {

/// The serialized state of the physics engine at the end of a tick, with its
/// checksum.
#[derive(Debug)]
pub struct RapierRollbackState {
    pub rapier_state: Option<Vec<u8>>,
    pub rapier_checksum: u16,
}

/// What a store holds: the bytes, if any, and the checksum.
pub struct SnapshotView {
    pub bytes: Option<Seq<u8>>,
    pub checksum: u16,
}

impl View for RapierRollbackState {
    type V = SnapshotView;

    open spec fn view(&self) -> SnapshotView {
        SnapshotView {
            bytes: match self.rapier_state {
                Some(bytes) => Some(bytes@),
                None => None,
            },
            checksum: self.rapier_checksum,
        }
    }
}

/// The content of a store after a tick: the new bytes with their checksum,
/// or the content before if there are no new bytes.
pub open spec fn snapshot_after(before: SnapshotView, serialized: Option<Seq<u8>>) -> SnapshotView {
    match serialized {
        Some(bytes) => SnapshotView { bytes: Some(bytes), checksum: checksum_of(bytes) as u16 },
        None => before,
    }
}

impl RapierRollbackState {
    /// The checksum belongs to the bytes. A store without bytes may hold any
    /// checksum.
    pub open spec fn consistent(&self) -> bool {
        self@.bytes matches Some(bytes) ==> self@.checksum == checksum_of(bytes)
    }

    /// A store that holds no snapshot yet.
    pub fn new() -> (store: Self)
        ensures
            store@.bytes is None,
            store@.checksum == 0,
            store.consistent(),
    {
        RapierRollbackState { rapier_state: None, rapier_checksum: 0 }
    }
}

/// Stores the state of this tick. `serialized` holds the bytes of the
/// simulation state, or nothing if it could not be serialized; in that case
/// the store keeps the snapshot of the previous tick.
pub fn save_rapier_context(game_state: &mut RapierRollbackState, serialized: Option<Vec<u8>>)
    ensures
        final(game_state)@ == snapshot_after(
            old(game_state)@,
            match serialized {
                Some(bytes) => Some(bytes@),
                None => None,
            },
        ),
        serialized is Some ==> final(game_state).consistent(),
        serialized is None ==> *final(game_state) == *old(game_state),
        old(game_state).consistent() ==> final(game_state).consistent(),
{
    if let Some(context_bytes) = serialized {
        game_state.rapier_checksum = fletcher16(context_bytes.as_slice());
        game_state.rapier_state = Some(context_bytes);
    }
}

/// Two stores that saved equal bytes hold equal checksums, whatever they
/// held before.
pub proof fn lemma_equal_bytes_equal_snapshots(
    first: SnapshotView,
    second: SnapshotView,
    bytes: Seq<u8>,
)
    ensures
        snapshot_after(first, Some(bytes)) == snapshot_after(second, Some(bytes)),
        snapshot_after(first, Some(bytes)).checksum == checksum_of(bytes),
{
    crate::checksum::lemma_checksum_range(bytes);
}

/// A tick without bytes changes nothing, so the store still holds what the
/// last successful tick saved.
pub proof fn lemma_failed_tick_keeps_snapshot(before: SnapshotView, bytes: Seq<u8>)
    ensures
        snapshot_after(snapshot_after(before, Some(bytes)), None) == snapshot_after(
            before,
            Some(bytes),
        ),
{
}

} // verus!
