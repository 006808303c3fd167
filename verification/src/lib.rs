//! Coordination layer for a peer-to-peer card-game session hosted inside a
//! game engine: cross-thread deferred event/callback queues drained by the
//! designated presentation thread, a named-hook registry driven by the
//! protocol layer, the channel lifecycle state machine, and the
//! deterministic random-seed synchronizer shared by both peers.

pub mod value;
pub mod queue;
pub mod seed;
pub mod hexstr;
pub mod session;
pub mod hooks;
pub mod nfts;
pub mod kabletop;
