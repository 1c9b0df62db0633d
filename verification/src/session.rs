//! Session orchestrator: decides, from the roster and the session
//! parameters, what session is to be built.
//!
//! The decision is a value, the [`SessionPlan`]. Whoever holds the transport
//! carries the plan out; a plan exists only if the parameters were accepted,
//! so a refused session registers no peer at all.

use vstd::prelude::*;

verus! {

/// The largest prediction window that is accepted. The session layer keeps
/// this many past inputs per player; a peer that ran further ahead would roll
/// back to inputs that are already overwritten.
pub const MAX_PREDICTION_WINDOW: usize = 128;

/// The prediction window of a network session of this game.
pub const PREDICTION_WINDOW: usize = 12;

/// The number of frames a local input is held back.
pub const INPUT_DELAY: usize = 3;

/// The number of frames between two exchanges of the snapshot checksum.
pub const DESYNC_INTERVAL: u32 = 10;

/// The address of a peer. The core only compares it.
#[derive(Copy, Clone, Debug, PartialEq, Eq, Hash, Structural)]
pub struct PlayerId(pub u64);

/// One entry of the roster.
#[derive(Copy, Clone, Debug, PartialEq, Eq, Structural)]
pub struct NetworkPlayer {
    pub is_local: bool,
    pub id: PlayerId,
}

/// What a session slot is bound to.
#[derive(Copy, Clone, Debug, PartialEq, Eq, Structural)]
pub enum PlayerSlot {
    /// The player plays on this device.
    Local,
    /// The player plays on the device with this address.
    Remote(PlayerId),
}

/// Why no session can be built.
#[derive(Copy, Clone, Debug, PartialEq, Eq, Structural)]
pub enum SessionError {
    /// The prediction window is zero or above [`MAX_PREDICTION_WINDOW`].
    InvalidPredictionWindow,
}

/// A session that is ready to be built: its parameters, and one slot per
/// player. The slot at index `i` belongs to the player handle `i`.
#[derive(Debug)]
pub struct SessionPlan {
    pub num_players: usize,
    pub desync_interval: u32,
    pub max_prediction_window: usize,
    pub input_delay: usize,
    pub slots: Vec<PlayerSlot>,
}

/// Whether a prediction window lies in the accepted range.
pub open spec fn window_accepted(prediction_window: usize) -> bool {
    1 <= prediction_window <= MAX_PREDICTION_WINDOW
}

/// The slot of one player: local players play here, all others are remote
/// and addressed by their id.
pub open spec fn slot_of(player: NetworkPlayer) -> PlayerSlot {
    if player.is_local {
        PlayerSlot::Local
    } else {
        PlayerSlot::Remote(player.id)
    }
}

/// The slots of a roster, in roster order.
pub open spec fn slots_of(roster: Seq<NetworkPlayer>) -> Seq<PlayerSlot> {
    Seq::new(roster.len(), |handle: int| slot_of(roster[handle]))
}

impl SessionPlan {
    /// A plan is well formed when every player has a slot and the prediction
    /// window is accepted.
    pub open spec fn well_formed(&self) -> bool {
        &&& self.slots@.len() == self.num_players
        &&& window_accepted(self.max_prediction_window)
    }

    /// Whether this is the plan for `roster` under the given parameters.
    pub open spec fn is_plan_for(
        &self,
        roster: Seq<NetworkPlayer>,
        prediction_window: usize,
        input_delay: usize,
        desync_interval: u32,
    ) -> bool {
        &&& self.num_players == roster.len()
        &&& self.desync_interval == desync_interval
        &&& self.max_prediction_window == prediction_window
        &&& self.input_delay == input_delay
        &&& self.slots@ == slots_of(roster)
    }
}

/// Checks a prediction window against the accepted range.
pub fn validate_prediction_window(prediction_window: usize) -> (checked: Result<
    usize,
    SessionError,
>)
    ensures
        window_accepted(prediction_window) ==> checked == Ok::<usize, SessionError>(
            prediction_window,
        ),
        !window_accepted(prediction_window) ==> checked == Err::<usize, SessionError>(
            SessionError::InvalidPredictionWindow,
        ),
{
    if prediction_window == 0 || prediction_window > MAX_PREDICTION_WINDOW {
        Err(SessionError::InvalidPredictionWindow)
    } else {
        Ok(prediction_window)
    }
}

/// Assigns one slot to each player of the roster, in roster order.
pub fn assign_slots(roster: &Vec<NetworkPlayer>) -> (slots: Vec<PlayerSlot>)
    ensures
        slots@ == slots_of(roster@),
{
    let mut slots: Vec<PlayerSlot> = Vec::new();
    let mut handle: usize = 0;
    while handle < roster.len()
        invariant
            handle <= roster@.len(),
            slots@.len() == handle,
            forall|i: int| 0 <= i < handle ==> slots@[i] == slot_of(roster@[i]),
        decreases roster@.len() - handle,
    {
        let network_player = roster[handle];
        if network_player.is_local {
            slots.push(PlayerSlot::Local);
        } else {
            slots.push(PlayerSlot::Remote(network_player.id));
        }
        handle += 1;
    }
    proof {
        assert(slots@ =~= slots_of(roster@));
    }
    slots
}

/// Plans a session for `roster`.
///
/// The plan is made exactly when the prediction window is accepted. A
/// refused window is the only error, and then nothing is planned: no slot is
/// assigned to any peer.
pub fn plan_session(
    roster: &Vec<NetworkPlayer>,
    prediction_window: usize,
    input_delay: usize,
    desync_interval: u32,
) -> (planned: Result<SessionPlan, SessionError>)
    ensures
        planned is Ok <==> window_accepted(prediction_window),
        planned matches Ok(plan) ==> plan.is_plan_for(
            roster@,
            prediction_window,
            input_delay,
            desync_interval,
        ) && plan.well_formed(),
        planned matches Err(error) ==> error == SessionError::InvalidPredictionWindow,
{
    match validate_prediction_window(prediction_window) {
        Err(error) => Err(error),
        Ok(window) => {
            let slots = assign_slots(roster);
            Ok(
                SessionPlan {
                    num_players: roster.len(),
                    desync_interval,
                    max_prediction_window: window,
                    input_delay,
                    slots,
                },
            )
        },
    }
}

/// Starts the network session of this game, as far as the core decides it:
/// the result is the plan that the transport side carries out. Checksums are
/// exchanged every [`DESYNC_INTERVAL`] frames, a peer may run
/// [`PREDICTION_WINDOW`] frames ahead, and local input is held back
/// [`INPUT_DELAY`] frames. These parameters are always accepted, so there is
/// always a plan.
pub fn start_network_session(players: &Vec<NetworkPlayer>) -> (planned: Result<
    SessionPlan,
    SessionError,
>)
    ensures
        planned is Ok,
        planned matches Ok(plan) ==> plan.is_plan_for(
            players@,
            PREDICTION_WINDOW,
            INPUT_DELAY,
            DESYNC_INTERVAL,
        ) && plan.well_formed(),
{
    plan_session(players, PREDICTION_WINDOW, INPUT_DELAY, DESYNC_INTERVAL)
}

/// For a window above the ceiling, or of zero frames, there is no well-formed
/// plan, whatever the roster and the other parameters are.
pub proof fn lemma_refused_window_has_no_plan(
    plan: SessionPlan,
    roster: Seq<NetworkPlayer>,
    prediction_window: usize,
    input_delay: usize,
    desync_interval: u32,
)
    requires
        prediction_window > MAX_PREDICTION_WINDOW || prediction_window == 0,
        plan.is_plan_for(roster, prediction_window, input_delay, desync_interval),
    ensures
        !window_accepted(prediction_window),
        !plan.well_formed(),
{
}

/// In the slots of a roster, handle `i` is local exactly when player `i` is,
/// and a remote slot carries the id of its player.
pub proof fn lemma_slots_follow_roster(roster: Seq<NetworkPlayer>, handle: int)
    requires
        0 <= handle < roster.len(),
    ensures
        slots_of(roster).len() == roster.len(),
        roster[handle].is_local <==> slots_of(roster)[handle] == PlayerSlot::Local,
        !roster[handle].is_local ==> slots_of(roster)[handle] == PlayerSlot::Remote(
            roster[handle].id,
        ),
{
}

} // verus!
