//! Plain-value model of the data exchanged with the host engine and the
//! protocol layer: variant-like values, outbound events, and deferred
//! callback invocations.

use vstd::prelude::*;

verus! {

/// A handle into the host engine's callback table. The engine owns the
/// callable; the coordinator only stores the handle long enough to forward
/// it, so a plain identifier models it.
pub type CallbackId = u64;

/// A dynamically typed value crossing the boundary to the host engine or the
/// remote peer. Floating-point payloads are carried as their raw bit
/// pattern; the unverified engine glue converts them at the boundary.
#[derive(Clone, Debug, PartialEq)]
pub enum Value {
    Bool(bool),
    Int(i64),
    /// The bit pattern of a 64-bit floating-point number.
    FloatBits(u64),
    Str(String),
    Nil,
}

/// Connection mode of the live process: not connected, an outbound client,
/// or a listening server.
#[derive(Clone, Copy, Debug, PartialEq, Eq, Structural)]
pub enum P2pMode {
    Disconnected,
    Client,
    Server,
}

/// An outbound notification for the host engine, produced by any thread and
/// emitted only by the designated thread once it drains the event queue.
#[derive(Clone, Debug, PartialEq)]
pub enum Event {
    /// A connection came up or went down, in the given mode.
    ConnectStatus { mode: P2pMode, status: bool },
    /// Events produced by the scripting runtime while running a code chunk.
    LuaEvents { events: Vec<Value> },
    /// The cached on-chain asset holdings changed.
    OwnedNftsUpdated { nfts: Vec<(String, u64)> },
    /// The purchase-box state changed.
    BoxStatusUpdated { count: u64, ready: bool },
    /// The remote peer answered a protocol message.
    P2pMessageReply { message: String, parameters: Vec<(String, Value)> },
}

/// A deferred invocation of a host-engine callback: only the designated
/// thread may perform it, so background work enqueues this record instead.
#[derive(Clone, Debug, PartialEq)]
pub struct DeferredCall {
    pub callback: CallbackId,
    pub args: Vec<Value>,
}

} // verus!
