//! Deterministic rollback-networking core: input encoding, frame and
//! rollback-status tracking, session planning, and the snapshot checksum.

pub mod checksum;
pub mod controls;
pub mod frames;
pub mod game_set;
pub mod ggrs_config;
pub mod keyboard;
pub mod local_inputs;
pub mod session;
pub mod snapshot;
