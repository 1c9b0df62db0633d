//! The marker of this game's session configuration.

use vstd::prelude::*;

verus! {

/// Marks the session configuration of this game: the input of a player is
/// a control mask, the saved state is a single byte, and a peer is addressed
/// by its player id.
#[derive(Debug)]
pub struct GGRSConfig;

} // verus!
