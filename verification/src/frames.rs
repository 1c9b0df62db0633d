//! Frame counters and the per-tick rollback status.
//!
//! Each counter is a value that the tick context owns and hands to its one
//! writer. The rollback status is derived anew every tick from the frame
//! about to run, the frame the session believes is current, and the frame
//! seen on the previous tick.

use vstd::prelude::*;

verus! {

/// A simulation tick counter.
pub type Frame = i32;

/// Left outside of the rollback system to detect rollbacks.
#[derive(Copy, Clone, Debug, PartialEq, Eq, Hash, Structural)]
pub struct LastFrame(pub Frame);

/// Highest frame for which the inputs of all peers are confirmed.
#[derive(Copy, Clone, Debug, PartialEq, Eq, Hash, Structural)]
pub struct ConfirmedFrame(pub Frame);

/// The frame that the network session believes is current.
#[derive(Copy, Clone, Debug, PartialEq, Eq, Hash, Structural)]
pub struct CurrentSessionFrame(pub Frame);

/// The frame that is being executed.
#[derive(Copy, Clone, Debug, PartialEq, Eq, Hash, Structural)]
pub struct CurrentFrame(pub Frame);

/// The threshold below which a frame's results may be trusted.
#[derive(Copy, Clone, Debug, PartialEq, Eq, Hash, Structural)]
pub struct ValidatableFrame(pub Frame);

impl Default for LastFrame {
    fn default() -> (frame: Self)
        ensures
            frame.0 == 0,
    {
        LastFrame(0)
    }
}

impl Default for ConfirmedFrame {
    fn default() -> (frame: Self)
        ensures
            frame.0 == 0,
    {
        ConfirmedFrame(0)
    }
}

impl Default for CurrentSessionFrame {
    fn default() -> (frame: Self)
        ensures
            frame.0 == 0,
    {
        CurrentSessionFrame(0)
    }
}

impl Default for CurrentFrame {
    fn default() -> (frame: Self)
        ensures
            frame.0 == 0,
    {
        CurrentFrame(0)
    }
}

impl Default for ValidatableFrame {
    /// The threshold before anything is confirmed: the least frame there is,
    /// so that no frame lies below it.
    fn default() -> (frame: Self)
        ensures
            frame.0 == i32::MIN,
            forall|any: Frame| !frame.validates(any),
    {
        ValidatableFrame(i32::MIN)
    }
}

impl ValidatableFrame {
    /// A frame may be trusted when it lies strictly below the threshold.
    pub open spec fn validates(&self, frame: Frame) -> bool {
        frame < self.0
    }

    pub fn is_validatable(&self, frame: Frame) -> (trusted: bool)
        ensures
            trusted == self.validates(frame),
    {
        frame < self.0
    }
}

/// The flags of one tick. Should not be rolled back.
#[derive(Copy, Clone, Debug, PartialEq, Eq, Hash, Structural)]
pub struct RollbackStatus {
    pub is_rollback: bool,
    pub is_replay: bool,
    pub rollback_frame: Frame,
    pub last_frame: Frame,
}

impl Default for RollbackStatus {
    fn default() -> (status: Self)
        ensures
            status == (RollbackStatus {
                is_rollback: false,
                is_replay: false,
                rollback_frame: 0,
                last_frame: 0,
            }),
            status.consistent(),
    {
        RollbackStatus { is_rollback: false, is_replay: false, rollback_frame: 0, last_frame: 0 }
    }
}

impl RollbackStatus {
    /// Every rollback is a replay.
    pub open spec fn consistent(&self) -> bool {
        self.is_rollback ==> self.is_replay
    }

    /// The status of the tick that runs `current_frame`, when the status of
    /// the previous tick was `self` and the session is at
    /// `current_session_frame`.
    ///
    /// The tick is a rollback when the frame did not strictly advance, and a
    /// replay when it is a rollback or the session is ahead of it. The
    /// rollback target changes only on a rollback; the frame is always
    /// carried forward.
    pub open spec fn next(&self, current_frame: Frame, current_session_frame: Frame) -> Self {
        RollbackStatus {
            is_rollback: self.last_frame >= current_frame,
            is_replay: self.last_frame >= current_frame || current_session_frame > current_frame,
            rollback_frame: if self.last_frame >= current_frame {
                current_frame
            } else {
                self.rollback_frame
            },
            last_frame: current_frame,
        }
    }
}

/// What is known of the network session when the session frame is updated.
#[derive(Copy, Clone, Debug, PartialEq, Eq, Structural)]
pub enum SessionKind {
    /// A session that tests rollbacks against itself.
    SyncTest,
    /// A peer-to-peer session, with the frame it reports as current.
    P2P(Frame),
    /// A session that only watches.
    Spectator,
}

/// The session frame after an update: unchanged without a session, the frame
/// that a peer-to-peer session reports, and `current_frame` otherwise.
pub open spec fn session_frame_after(
    before: Frame,
    current_frame: Frame,
    session: Option<SessionKind>,
) -> Frame {
    match session {
        None => before,
        Some(SessionKind::P2P(frame)) => frame,
        Some(_) => current_frame,
    }
}

/// Sets the session frame from the session, if there is one.
pub fn update_current_session_frame(
    current_session_frame: &mut CurrentSessionFrame,
    current_frame: Frame,
    session: Option<SessionKind>,
)
    ensures
        final(current_session_frame).0 == session_frame_after(
            old(current_session_frame).0,
            current_frame,
            session,
        ),
{
    if let Some(session) = session {
        match session {
            SessionKind::SyncTest => current_session_frame.0 = current_frame,
            SessionKind::P2P(frame) => current_session_frame.0 = frame,
            SessionKind::Spectator => current_session_frame.0 = current_frame,
        }
    }
}

/// Derives the flags of the tick that runs `current_frame`.
pub fn update_rollback_status(
    current_frame: Frame,
    current_session_frame: &CurrentSessionFrame,
    rollback_status: &mut RollbackStatus,
)
    ensures
        *final(rollback_status) == old(rollback_status).next(
            current_frame,
            current_session_frame.0,
        ),
        final(rollback_status).consistent(),
{
    // If the last frame is greater than the current frame, we have rolled back.
    // Same for equals, because it means our frame did not update!
    rollback_status.is_rollback = rollback_status.last_frame >= current_frame;
    rollback_status.is_replay = rollback_status.is_rollback || current_session_frame.0
        > current_frame;

    if rollback_status.is_rollback {
        rollback_status.rollback_frame = current_frame;
    }
    // After a rollback all frames up to where we left off are simulated
    // again, and further rollbacks may happen on the way.

    rollback_status.last_frame = current_frame;
}

/// Whatever the status before, the status after a tick is consistent: a
/// rollback is always a replay.
pub proof fn lemma_rollback_implies_replay(
    status: RollbackStatus,
    current_frame: Frame,
    current_session_frame: Frame,
)
    ensures
        status.next(current_frame, current_session_frame).consistent(),
{
}

/// A tick is a rollback exactly when the frame failed to advance strictly,
/// and then the rollback target is the frame of that tick.
pub proof fn lemma_rollback_iff_not_advanced(
    status: RollbackStatus,
    current_frame: Frame,
    current_session_frame: Frame,
)
    ensures
        status.next(current_frame, current_session_frame).is_rollback <==> status.last_frame
            >= current_frame,
        status.next(current_frame, current_session_frame).is_rollback ==> status.next(
            current_frame,
            current_session_frame,
        ).rollback_frame == current_frame,
        !status.next(current_frame, current_session_frame).is_rollback ==> status.next(
            current_frame,
            current_session_frame,
        ).rollback_frame == status.rollback_frame,
{
}

/// A frame that runs twice in a row is a rollback the second time, at any
/// session frame: a catch-up burst may roll back to one frame repeatedly.
pub proof fn lemma_repeated_frame_is_rollback(
    status: RollbackStatus,
    frame: Frame,
    first_session_frame: Frame,
    second_session_frame: Frame,
)
    ensures
        status.next(frame, first_session_frame).next(frame, second_session_frame).is_rollback,
        status.next(frame, first_session_frame).next(frame, second_session_frame).is_replay,
        status.next(frame, first_session_frame).next(frame, second_session_frame).rollback_frame
            == frame,
{
}

/// A tick whose frame advanced is a replay exactly when the session is ahead
/// of it.
pub proof fn lemma_replay_without_rollback(
    status: RollbackStatus,
    current_frame: Frame,
    current_session_frame: Frame,
)
    requires
        status.last_frame < current_frame,
    ensures
        !status.next(current_frame, current_session_frame).is_rollback,
        status.next(current_frame, current_session_frame).is_replay <==> current_session_frame
            > current_frame,
{
}

} // verus!
