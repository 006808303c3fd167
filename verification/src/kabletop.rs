//! The channel lifecycle coordinator. Background workers (transport,
//! blockchain, round negotiation) report outcomes into these methods; the
//! methods make every decision, update the single live session, and hand
//! all outward effects to the two deferred queues, which only the
//! designated presentation thread drains. The unverified shell around the
//! library performs the outside calls and feeds their outcomes back here.

use vstd::prelude::*;
use crate::value::{Value, Event, DeferredCall, CallbackId, P2pMode};
use crate::queue::DeferredQueue;
use crate::seed::{RandomSeedSync, seed_fold, seed_of, derive_channel_seeds};
use crate::hexstr::{hex_of, hex_encode};
use crate::session::{ChannelSession, ScriptRuntime, PLAYER_ONE, PLAYER_TWO};
use crate::hooks::{HookRegistry, HookName};
use crate::nfts::{expand_counts, count_of, histogram_covers, expand_nft_counts, nft_counts,
    clone_nft_counts, clone_names};

verus! {

/// A synchronously detected failure: no background work is spawned, the
/// caller gets the reason at once.
#[derive(Clone, Copy, Debug, PartialEq, Eq, Structural)]
pub enum PreconditionError {
    /// The local asset list is empty.
    EmptyNfts,
    /// The process is not connected as a client.
    NoClientMode,
}

impl PreconditionError {
    /// The diagnostic the caller receives.
    pub fn message(&self) -> (r: String)
        ensures
            *self is EmptyNfts ==> r@ == "empty nfts"@,
            *self is NoClientMode ==> r@ == "no client mode"@,
    {
        match self {
            PreconditionError::EmptyNfts => "empty nfts".to_owned(),
            PreconditionError::NoClientMode => "no client mode".to_owned(),
        }
    }
}

/// What the caller of `close_game` must do next: either a background
/// worker still has to notify the peer, or the callback is to be invoked
/// right now, on the calling (designated) thread, with the given
/// arguments.
#[derive(Clone, Debug, PartialEq)]
pub enum CloseGameAction {
    NotifyPeer,
    InvokeNow { args: Vec<Value> },
}

/// `post` is `pre` with one call of `cb` with arguments `args` appended.
pub open spec fn pushed_call(
    pre: Seq<DeferredCall>,
    post: Seq<DeferredCall>,
    cb: CallbackId,
    args: Seq<Value>,
) -> bool {
    &&& post.len() == pre.len() + 1
    &&& post.drop_last() == pre
    &&& post.last().callback == cb
    &&& post.last().args@ == args
}

/// `post` is `pre` with one success call of `cb` appended whose second
/// argument is the lowercase hexadecimal rendering of `hash`.
pub open spec fn pushed_hash_result(
    pre: Seq<DeferredCall>,
    post: Seq<DeferredCall>,
    cb: CallbackId,
    hash: Seq<u8>,
) -> bool {
    &&& post.len() == pre.len() + 1
    &&& post.drop_last() == pre
    &&& post.last().callback == cb
    &&& post.last().args@.len() == 2
    &&& post.last().args@[0] == Value::Bool(true)
    &&& (post.last().args@[1] matches Value::Str(s) && s@ == hex_of(hash))
}

/// Whether some event of `s` reports a change of the owned-asset cache.
pub open spec fn has_owned_update(s: Seq<Event>) -> bool
    decreases s.len(),
{
    if s.len() == 0 {
        false
    } else {
        (s.last() is OwnedNftsUpdated) || has_owned_update(s.drop_last())
    }
}

/// The coordination context: the single live session and runtime, the two
/// deferred queues, the hook registry, and the cached chain state. One
/// value of this type exists per process; the unverified shell guards it
/// with mutual exclusion.
pub struct Kabletop {
    /// The locally configured deck, one entry per copy.
    pub nfts: Vec<String>,
    /// Current connection mode.
    pub mode: P2pMode,
    /// The live channel session, if any.
    pub session: Option<ChannelSession>,
    /// The live scripting runtime, if any.
    pub runtime: Option<ScriptRuntime>,
    /// Outbound notifications for the host engine.
    pub events: DeferredQueue<Event>,
    /// Deferred host-engine callback invocations.
    pub callbacks: DeferredQueue<DeferredCall>,
    /// Which named hooks have handlers.
    pub hooks: HookRegistry,
    /// The callback to fire on the next channel-open hook, if one was
    /// registered by `listen`.
    pub open_channel_listener: Option<CallbackId>,
    /// Cached owned-asset holdings, if a refresh completed.
    pub owned_nfts: Option<Vec<(String, u64)>>,
    /// Cached purchase-box state, if a refresh completed.
    pub box_status: Option<(u64, bool)>,
    /// The scripting entry point used when a channel opens.
    pub lua_entry: String,
    /// The local player's display name.
    pub nickname: String,
    /// The shared deterministic pseudo-random source.
    pub randomseed: RandomSeedSync,
    /// Which callback answers which named protocol message; the last
    /// binding of a name wins.
    pub p2p_bindings: Vec<(String, CallbackId)>,
}

/// The fields untouched by queue traffic: deck, entry point, nickname,
/// hook registry, message bindings and the two caches.
pub open spec fn same_config(a: Kabletop, b: Kabletop) -> bool {
    &&& a.nfts == b.nfts
    &&& a.lua_entry == b.lua_entry
    &&& a.nickname == b.nickname
    &&& a.hooks == b.hooks
    &&& a.p2p_bindings == b.p2p_bindings
    &&& a.owned_nfts == b.owned_nfts
    &&& a.box_status == b.box_status
}

/// The channel-related fields: mode, session, runtime, random source and
/// the pending open listener.
pub open spec fn same_channel(a: Kabletop, b: Kabletop) -> bool {
    &&& a.mode == b.mode
    &&& a.session == b.session
    &&& a.runtime == b.runtime
    &&& a.randomseed == b.randomseed
    &&& a.open_channel_listener == b.open_channel_listener
}

/// Both deferred queues hold the same entries.
pub open spec fn same_queues(a: Kabletop, b: Kabletop) -> bool {
    &&& a.events.entries() == b.events.entries()
    &&& a.callbacks.entries() == b.callbacks.entries()
}

/// The round-transition binding of `name`, scanning newest registration
/// first: the last binding of a name wins.
pub open spec fn binding_of(s: Seq<(String, CallbackId)>, name: Seq<char>) -> Option<CallbackId>
    decreases s.len(),
{
    if s.len() == 0 {
        Option::None
    } else if s.last().0@ == name {
        Option::Some(s.last().1)
    } else {
        binding_of(s.drop_last(), name)
    }
}

/// A two-argument callback payload.
fn two_args(a: Value, b: Value) -> (r: Vec<Value>)
    ensures
        r@ == seq![a, b],
{
    let ghost ga = a;
    let ghost gb = b;
    let mut v: Vec<Value> = Vec::new();
    v.push(a);
    v.push(b);
    proof {
        assert(v@ =~= seq![ga, gb]);
    }
    v
}

impl Kabletop {
    /// A fresh coordinator: disconnected, nothing live, empty queues, the
    /// three mandatory hooks registered.
    pub fn new() -> (k: Self)
        ensures
            k.nfts@ == Seq::<String>::empty(),
            k.mode == P2pMode::Disconnected,
            k.session is None,
            k.runtime is None,
            k.events.entries() == Seq::<Event>::empty(),
            k.callbacks.entries() == Seq::<DeferredCall>::empty(),
            k.hooks.is_registered(HookName::SyncOperation),
            k.hooks.is_registered(HookName::SwitchRound),
            k.hooks.is_registered(HookName::OpenKabletopChannel),
            k.open_channel_listener is None,
            k.owned_nfts is None,
            k.box_status is None,
            k.lua_entry@ == Seq::<char>::empty(),
            k.nickname@ == Seq::<char>::empty(),
            k.randomseed.state == 0u64,
            k.p2p_bindings@ == Seq::<(String, CallbackId)>::empty(),
    {
        let mut hooks = HookRegistry::new();
        hooks.register(HookName::SyncOperation);
        hooks.register(HookName::SwitchRound);
        hooks.register(HookName::OpenKabletopChannel);
        Kabletop {
            nfts: Vec::new(),
            mode: P2pMode::Disconnected,
            session: None,
            runtime: None,
            events: DeferredQueue::new(),
            callbacks: DeferredQueue::new(),
            hooks,
            open_channel_listener: None,
            owned_nfts: None,
            box_status: None,
            lua_entry: String::new(),
            nickname: String::new(),
            randomseed: RandomSeedSync::new(),
            p2p_bindings: Vec::new(),
        }
    }

    /// Set the scripting entry point used when a channel opens.
    pub fn set_entry(&mut self, entry: String)
        ensures
            final(self).lua_entry == entry,
            final(self).nfts == old(self).nfts,
            final(self).nickname == old(self).nickname,
            final(self).hooks == old(self).hooks,
            final(self).p2p_bindings == old(self).p2p_bindings,
            final(self).owned_nfts == old(self).owned_nfts,
            final(self).box_status == old(self).box_status,
            same_channel(*final(self), *old(self)),
            same_queues(*final(self), *old(self)),
    {
        self.lua_entry = entry;
    }

    /// Set the local player's display name.
    pub fn set_nickname(&mut self, nickname: String)
        ensures
            final(self).nickname == nickname,
            final(self).nfts == old(self).nfts,
            final(self).lua_entry == old(self).lua_entry,
            final(self).hooks == old(self).hooks,
            final(self).p2p_bindings == old(self).p2p_bindings,
            final(self).owned_nfts == old(self).owned_nfts,
            final(self).box_status == old(self).box_status,
            same_channel(*final(self), *old(self)),
            same_queues(*final(self), *old(self)),
    {
        self.nickname = nickname;
    }

    /// Replace the configured deck with the flat expansion of the given
    /// (asset, count) pairs.
    pub fn set_nfts(&mut self, nfts: Vec<(String, u64)>)
        ensures
            final(self).nfts@ == expand_counts(nfts@),
            final(self).lua_entry == old(self).lua_entry,
            final(self).nickname == old(self).nickname,
            final(self).hooks == old(self).hooks,
            final(self).p2p_bindings == old(self).p2p_bindings,
            final(self).owned_nfts == old(self).owned_nfts,
            final(self).box_status == old(self).box_status,
            same_channel(*final(self), *old(self)),
            same_queues(*final(self), *old(self)),
    {
        let expanded = expand_nft_counts(&nfts);
        self.nfts = expanded;
    }

    /// Record the agreed round owner and actor into the live session; a
    /// quiet no-op while no session is live.
    pub fn set_round(&mut self, owner: u8, actor: u8)
        requires
            owner == PLAYER_ONE || owner == PLAYER_TWO,
            actor == PLAYER_ONE || actor == PLAYER_TWO,
        ensures
            old(self).session is None ==> *final(self) == *old(self),
            old(self).session matches Some(s) ==> final(self).session matches Some(t)
                && t.round_owner == owner && t.round_actor == actor && t.user_type == s.user_type
                && t.opponent_type == s.opponent_type && t.script_hash == s.script_hash
                && t.user_nfts == s.user_nfts && t.opponent_nfts == s.opponent_nfts
                && t.winner == s.winner,
            same_config(*final(self), *old(self)),
            same_queues(*final(self), *old(self)),
            final(self).mode == old(self).mode,
            final(self).runtime == old(self).runtime,
            final(self).randomseed == old(self).randomseed,
            final(self).open_channel_listener == old(self).open_channel_listener,
    {
        match &mut self.session {
            Some(s) => {
                s.round_owner = owner;
                s.round_actor = actor;
            },
            None => {},
        }
    }

    /// The configured deck gathered into (asset, count) pairs.
    pub fn get_nfts(&self) -> (r: Vec<(String, u64)>)
        ensures
            forall|e: int| 0 <= e < r@.len() ==> #[trigger] r@[e].1 == count_of(self.nfts@, r@[e].0@),
            forall|e1: int, e2: int| 0 <= e1 < e2 < r@.len() ==> r@[e1].0@ != r@[e2].0@,
            histogram_covers(r@, self.nfts@, self.nfts@.len() as int),
    {
        nft_counts(&self.nfts)
    }

    /// How many assets the given player holds: the configured deck for
    /// player zero, else the live session's count for that player. Passing
    /// an identifier that is neither side of the live session is a
    /// contract violation.
    pub fn get_nfts_count(&self, player_id: u8) -> (r: usize)
        requires
            player_id != 0 ==> (self.session matches Some(s) && (player_id == s.user_type
                || player_id == s.opponent_type)),
        ensures
            player_id == 0 ==> r == self.nfts@.len(),
            player_id != 0 && (self.session matches Some(s) && player_id == s.user_type) ==> r
                == self.session->Some_0.user_nfts@.len(),
            player_id != 0 && (self.session matches Some(s) && player_id != s.user_type) ==> r
                == self.session->Some_0.opponent_nfts@.len(),
    {
        if player_id == 0 {
            self.nfts.len()
        } else {
            match &self.session {
                Some(s) => {
                    if player_id == s.user_type {
                        s.user_nfts.len()
                    } else {
                        s.opponent_nfts.len()
                    }
                },
                None => 0,
            }
        }
    }

    /// The live session's local player identifier, zero while none is
    /// live.
    pub fn get_player_id(&self) -> (r: i64)
        ensures
            self.session matches Some(s) ==> r == s.user_type as i64,
            self.session is None ==> r == 0,
    {
        match &self.session {
            Some(s) => s.user_type as i64,
            None => 0,
        }
    }

    /// The cached owned-asset holdings when read from cache; reading
    /// fresh returns nothing and the caller starts a background refresh.
    pub fn get_owned_nfts(&self, from_cache: bool) -> (r: Option<Vec<(String, u64)>>)
        ensures
            !from_cache ==> r is None,
            from_cache ==> (r is Some <==> self.owned_nfts is Some),
            from_cache ==> (self.owned_nfts matches Some(c) ==> (r matches Some(v) && v@
                == c@)),
    {
        if from_cache {
            match &self.owned_nfts {
                Some(c) => Some(clone_nft_counts(c)),
                None => None,
            }
        } else {
            None
        }
    }

    /// The cached purchase-box state, if any refresh completed yet.
    pub fn get_box_status(&self) -> (r: Option<(u64, bool)>)
        ensures
            r == self.box_status,
    {
        self.box_status
    }

    /// A completed owned-asset refresh: cache the fresh holdings and
    /// notify the host engine.
    pub fn owned_nfts_refreshed(&mut self, nfts: Vec<(String, u64)>)
        ensures
            final(self).owned_nfts matches Some(c) && c@ == nfts@,
            final(self).events.entries() == old(self).events.entries().push(
                (Event::OwnedNftsUpdated { nfts }),
            ),
            final(self).callbacks.entries() == old(self).callbacks.entries(),
            same_channel(*final(self), *old(self)),
            final(self).nfts == old(self).nfts,
            final(self).lua_entry == old(self).lua_entry,
            final(self).nickname == old(self).nickname,
            final(self).hooks == old(self).hooks,
            final(self).p2p_bindings == old(self).p2p_bindings,
            final(self).box_status == old(self).box_status,
    {
        let copy = clone_nft_counts(&nfts);
        self.owned_nfts = Some(copy);
        self.events.push(Event::OwnedNftsUpdated { nfts });
    }

    /// A completed purchase-box refresh: cache the fresh state and notify
    /// the host engine.
    pub fn box_status_refreshed(&mut self, count: u64, ready: bool)
        ensures
            final(self).box_status == Some((count, ready)),
            final(self).events.entries() == old(self).events.entries().push(
                (Event::BoxStatusUpdated { count, ready }),
            ),
            final(self).callbacks.entries() == old(self).callbacks.entries(),
            same_channel(*final(self), *old(self)),
            final(self).nfts == old(self).nfts,
            final(self).lua_entry == old(self).lua_entry,
            final(self).nickname == old(self).nickname,
            final(self).hooks == old(self).hooks,
            final(self).p2p_bindings == old(self).p2p_bindings,
            final(self).owned_nfts == old(self).owned_nfts,
    {
        self.box_status = Some((count, ready));
        self.events.push(Event::BoxStatusUpdated { count, ready });
    }

    /// Scripting output produced while a code chunk ran: forward it to the
    /// host engine.
    pub fn lua_events_produced(&mut self, events: Vec<Value>)
        ensures
            final(self).events.entries() == old(self).events.entries().push(
                (Event::LuaEvents { events }),
            ),
            final(self).callbacks.entries() == old(self).callbacks.entries(),
            same_channel(*final(self), *old(self)),
            same_config(*final(self), *old(self)),
    {
        self.events.push(Event::LuaEvents { events });
    }

    /// Apply a code chunk through the live runtime; a benign no-op while
    /// none is live.
    pub fn run(&mut self, code: String) -> (ran: bool)
        ensures
            ran == (old(self).runtime is Some),
            old(self).runtime is None ==> *final(self) == *old(self),
            old(self).runtime matches Some(rt) ==> final(self).runtime matches Some(rt2)
                && rt2.executed@ == rt.executed@.push(code) && rt2.time_seed == rt.time_seed
                && rt2.clock_seed == rt.clock_seed && rt2.first_nfts == rt.first_nfts
                && rt2.second_nfts == rt.second_nfts && rt2.entry == rt.entry && rt2.boosted
                == rt.boosted,
            same_config(*final(self), *old(self)),
            same_queues(*final(self), *old(self)),
            final(self).mode == old(self).mode,
            final(self).session == old(self).session,
            final(self).randomseed == old(self).randomseed,
            final(self).open_channel_listener == old(self).open_channel_listener,
    {
        match &mut self.runtime {
            Some(rt) => {
                rt.apply_code(code);
                true
            },
            None => false,
        }
    }

    /// The sync-operation hook: a remote peer produced an instruction;
    /// execute it through the live runtime, a reachable no-op while none
    /// is live.
    pub fn hook_sync_operation(&mut self, code: String) -> (ran: bool)
        ensures
            ran == (old(self).runtime is Some),
            old(self).runtime is None ==> *final(self) == *old(self),
            old(self).runtime matches Some(rt) ==> final(self).runtime matches Some(rt2)
                && rt2.executed@ == rt.executed@.push(code),
            same_config(*final(self), *old(self)),
            same_queues(*final(self), *old(self)),
            final(self).mode == old(self).mode,
            final(self).session == old(self).session,
            final(self).randomseed == old(self).randomseed,
            final(self).open_channel_listener == old(self).open_channel_listener,
    {
        self.run(code)
    }

    /// The switch-round hook: both peers agreed on a round transition;
    /// reseed the shared pseudo-random source from the agreed value.
    pub fn hook_switch_round(&mut self, signature: Vec<u8>)
        ensures
            final(self).randomseed.state == seed_of(signature@),
            same_config(*final(self), *old(self)),
            same_queues(*final(self), *old(self)),
            final(self).mode == old(self).mode,
            final(self).session == old(self).session,
            final(self).runtime == old(self).runtime,
            final(self).open_channel_listener == old(self).open_channel_listener,
    {
        self.randomseed.reseed(&signature);
    }

    /// Build and boot the scripting runtime from the live session and
    /// reseed the shared pseudo-random source from `hash`. Client and
    /// server converge on this one setup path; only the injection order
    /// differs by mode.
    fn boot_runtime_from(&mut self, hash: &Vec<u8>)
        requires
            old(self).session matches Some(s) && s.script_hash@.len() == 32,
        ensures
            old(self).session matches Some(s) ==> (final(self).runtime matches Some(rt)
                && rt.time_seed == seed_fold(s.script_hash@, 0, 8) && rt.clock_seed == seed_fold(
                s.script_hash@,
                8,
                16,
            ) && rt.boosted && rt.entry == old(self).lua_entry && rt.executed@
                == Seq::<String>::empty() && (old(self).mode == P2pMode::Client ==> rt.first_nfts@
                == s.user_nfts@ && rt.second_nfts@ == s.opponent_nfts@) && (old(self).mode
                != P2pMode::Client ==> rt.first_nfts@ == s.opponent_nfts@ && rt.second_nfts@
                == s.user_nfts@)),
            final(self).randomseed.state == seed_of(hash@),
            final(self).session == old(self).session,
            final(self).mode == old(self).mode,
            final(self).open_channel_listener == old(self).open_channel_listener,
            same_config(*final(self), *old(self)),
            same_queues(*final(self), *old(self)),
    {
        let (user_list, opp_list, tseed, cseed) = match &self.session {
            Some(s) => {
                let seeds = derive_channel_seeds(&s.script_hash);
                (clone_names(&s.user_nfts), clone_names(&s.opponent_nfts), seeds.0, seeds.1)
            },
            None => {
                proof {
                    assert(false);
                }
                (Vec::new(), Vec::new(), 0i64, 0i64)
            },
        };
        let mut rt = ScriptRuntime::new(tseed, cseed);
        if self.mode == P2pMode::Client {
            rt.inject_nfts(user_list, opp_list);
        } else {
            rt.inject_nfts(opp_list, user_list);
        }
        rt.boost(self.lua_entry.clone());
        self.runtime = Some(rt);
        self.randomseed.reseed(hash);
    }

    /// The channel-open hook: the on-chain negotiation completed with the
    /// given channel hash. Boots the runtime from the session, reseeds
    /// from the hash, and reports success with the hex-encoded hash to the
    /// listener registered by `listen`, consuming it. A quiet no-op while
    /// no session is live.
    pub fn hook_open_kabletop_channel(&mut self, hash: Vec<u8>)
        requires
            old(self).session matches Some(s) ==> s.script_hash@.len() == 32,
        ensures
            old(self).session is None ==> *final(self) == *old(self),
            old(self).session matches Some(s) ==> (final(self).runtime matches Some(rt)
                && rt.time_seed == seed_fold(s.script_hash@, 0, 8) && rt.clock_seed == seed_fold(
                s.script_hash@,
                8,
                16,
            ) && rt.boosted && rt.entry == old(self).lua_entry && (old(self).mode
                != P2pMode::Client ==> rt.first_nfts@ == s.opponent_nfts@ && rt.second_nfts@
                == s.user_nfts@) && final(self).randomseed.state == seed_of(hash@) && final(self).session == old(self).session && final(self).mode == old(self).mode && final(self).open_channel_listener is None && final(self).events.entries() == old(self).events.entries() && (old(self).open_channel_listener matches Some(cb)
                ==> pushed_hash_result(
                old(self).callbacks.entries(),
                final(self).callbacks.entries(),
                cb,
                hash@,
            )) && (old(self).open_channel_listener is None ==> final(self).callbacks.entries()
                == old(self).callbacks.entries())),
            same_config(*final(self), *old(self)),
    {
        if self.session.is_some() {
            self.boot_runtime_from(&hash);
            let listener = self.open_channel_listener.take();
            match listener {
                Some(cb) => {
                    let hx = hex_encode(&hash);
                    let args = two_args(Value::Bool(true), Value::Str(hx));
                    let ghost pre = self.callbacks.entries();
                    self.callbacks.push(DeferredCall { callback: cb, args });
                    proof {
                        assert(self.callbacks.entries().drop_last() =~= pre);
                    }
                },
                None => {},
            }
        }
    }

    /// Record the channel hash the on-chain negotiation agreed on.
    pub fn set_script_hash(&mut self, script_hash: Vec<u8>)
        requires
            old(self).session is Some,
            script_hash@.len() == 32,
        ensures
            old(self).session matches Some(s) ==> (final(self).session matches Some(t)
                && t.script_hash == script_hash && t.user_type == s.user_type && t.opponent_type
                == s.opponent_type && t.user_nfts == s.user_nfts && t.opponent_nfts
                == s.opponent_nfts && t.round_owner == s.round_owner && t.round_actor
                == s.round_actor && t.winner == s.winner),
            same_config(*final(self), *old(self)),
            same_queues(*final(self), *old(self)),
            final(self).mode == old(self).mode,
            final(self).runtime == old(self).runtime,
            final(self).randomseed == old(self).randomseed,
            final(self).open_channel_listener == old(self).open_channel_listener,
    {
        match &mut self.session {
            Some(s) => {
                s.script_hash = script_hash;
            },
            None => {},
        }
    }

    /// An outbound connection came up: the process is now a client and
    /// the host engine is told so.
    pub fn connect_established(&mut self)
        ensures
            final(self).mode == P2pMode::Client,
            final(self).events.entries() == old(self).events.entries().push(
                (Event::ConnectStatus { mode: P2pMode::Client, status: true }),
            ),
            final(self).callbacks.entries() == old(self).callbacks.entries(),
            same_config(*final(self), *old(self)),
            final(self).session == old(self).session,
            final(self).runtime == old(self).runtime,
            final(self).randomseed == old(self).randomseed,
            final(self).open_channel_listener == old(self).open_channel_listener,
    {
        self.mode = P2pMode::Client;
        self.events.push(Event::ConnectStatus { mode: P2pMode::Client, status: true });
    }

    /// The transport reported an asynchronous disconnection: the
    /// scripting runtime is discarded, the process returns to the
    /// disconnected state, and the host engine is told.
    pub fn connection_lost(&mut self)
        ensures
            final(self).mode == P2pMode::Disconnected,
            final(self).runtime is None,
            final(self).events.entries() == old(self).events.entries().push(
                (Event::ConnectStatus { mode: P2pMode::Client, status: false }),
            ),
            final(self).callbacks.entries() == old(self).callbacks.entries(),
            same_config(*final(self), *old(self)),
            final(self).session == old(self).session,
            final(self).randomseed == old(self).randomseed,
            final(self).open_channel_listener == old(self).open_channel_listener,
    {
        self.mode = P2pMode::Disconnected;
        self.runtime = None;
        self.events.push(Event::ConnectStatus { mode: P2pMode::Client, status: false });
    }

    /// Prepare to listen: a fresh session as player two, holding the
    /// locally configured deck.
    pub fn begin_listen(&mut self)
        ensures
            final(self).session matches Some(t) && t.wf() && t.user_type == PLAYER_TWO
                && t.user_nfts@ == old(self).nfts@ && t.opponent_nfts@.len() == 0 && (
            t.winner is None) && t.round_owner == PLAYER_TWO && t.round_actor == PLAYER_TWO,
            same_config(*final(self), *old(self)),
            same_queues(*final(self), *old(self)),
            final(self).mode == old(self).mode,
            final(self).runtime == old(self).runtime,
            final(self).randomseed == old(self).randomseed,
            final(self).open_channel_listener == old(self).open_channel_listener,
    {
        let deck = clone_names(&self.nfts);
        self.session = Some(ChannelSession::init(PLAYER_TWO, deck));
    }

    /// The listening endpoint bound successfully: the process is now a
    /// server.
    pub fn listen_bound(&mut self)
        ensures
            final(self).mode == P2pMode::Server,
            same_config(*final(self), *old(self)),
            same_queues(*final(self), *old(self)),
            final(self).session == old(self).session,
            final(self).runtime == old(self).runtime,
            final(self).randomseed == old(self).randomseed,
            final(self).open_channel_listener == old(self).open_channel_listener,
    {
        self.mode = P2pMode::Server;
    }

    /// An inbound connection was negotiated. With a valid receiver set
    /// the given callback is registered to fire on the next channel-open
    /// hook and success is announced; without one, session and runtime
    /// are torn down and failure is announced.
    pub fn client_connected(&mut self, valid_receivers: bool, callback: CallbackId)
        ensures
            valid_receivers ==> (final(self).open_channel_listener == Some(callback) && final(self).session == old(self).session && final(self).runtime == old(self).runtime && final(self).events.entries() == old(self).events.entries().push(
                (Event::ConnectStatus { mode: P2pMode::Server, status: true }),
            )),
            !valid_receivers ==> (final(self).session is None && final(self).runtime is None
                && final(self).open_channel_listener == old(self).open_channel_listener && final(self).events.entries() == old(self).events.entries().push(
                (Event::ConnectStatus { mode: P2pMode::Server, status: false }),
            )),
            final(self).callbacks.entries() == old(self).callbacks.entries(),
            same_config(*final(self), *old(self)),
            final(self).mode == old(self).mode,
            final(self).randomseed == old(self).randomseed,
    {
        if valid_receivers {
            self.open_channel_listener = Some(callback);
            self.events.push(Event::ConnectStatus { mode: P2pMode::Server, status: true });
        } else {
            self.session = None;
            self.runtime = None;
            self.events.push(Event::ConnectStatus { mode: P2pMode::Server, status: false });
        }
    }

    /// Tear everything down after the transport was shut down.
    pub fn shutdown(&mut self)
        ensures
            final(self).mode == P2pMode::Disconnected,
            final(self).session is None,
            final(self).runtime is None,
            final(self).open_channel_listener is None,
            same_config(*final(self), *old(self)),
            same_queues(*final(self), *old(self)),
            final(self).randomseed == old(self).randomseed,
    {
        self.mode = P2pMode::Disconnected;
        self.session = None;
        self.runtime = None;
        self.open_channel_listener = None;
    }

    /// Open a game channel. Fails synchronously — spawning no background
    /// work and enqueuing nothing — when the local deck is empty or the
    /// process is not a client; otherwise initializes the session as
    /// player one and lets the caller start the on-chain negotiation.
    pub fn create_channel(&mut self, _callback: CallbackId) -> (r: Result<(), PreconditionError>)
        ensures
            old(self).nfts@.len() == 0 ==> r == Result::<(), PreconditionError>::Err(
                PreconditionError::EmptyNfts,
            ) && *final(self) == *old(self),
            old(self).nfts@.len() > 0 && old(self).mode != P2pMode::Client ==> r == Result::<
                (),
                PreconditionError,
            >::Err(PreconditionError::NoClientMode) && *final(self) == *old(self),
            old(self).nfts@.len() > 0 && old(self).mode == P2pMode::Client ==> r == Result::<
                (),
                PreconditionError,
            >::Ok(()) && (final(self).session matches Some(t) && t.wf() && t.user_type
                == PLAYER_ONE && t.user_nfts@ == old(self).nfts@ && t.opponent_nfts@.len() == 0 && (
            t.winner is None)) && final(self).mode == old(self).mode && final(self).runtime == old(self).runtime && final(self).randomseed == old(self).randomseed && final(self).open_channel_listener == old(self).open_channel_listener,
            same_config(*final(self), *old(self)),
            same_queues(*final(self), *old(self)),
    {
        if self.nfts.len() == 0 {
            return Err(PreconditionError::EmptyNfts);
        }
        if self.mode != P2pMode::Client {
            return Err(PreconditionError::NoClientMode);
        }
        let deck = clone_names(&self.nfts);
        self.session = Some(ChannelSession::init(PLAYER_ONE, deck));
        Ok(())
    }

    /// The background channel-open negotiation succeeded: store what was
    /// agreed, boot the runtime exactly as the channel-open hook does,
    /// reseed from the channel hash, and enqueue the success callback
    /// with the hex-encoded hash.
    pub fn channel_open_succeeded(
        &mut self,
        script_hash: Vec<u8>,
        opponent_nfts: Vec<String>,
        hash: Vec<u8>,
        callback: CallbackId,
    )
        requires
            old(self).session is Some,
            script_hash@.len() == 32,
        ensures
            old(self).session matches Some(s) ==> (final(self).session matches Some(t)
                && t.script_hash == script_hash && t.opponent_nfts == opponent_nfts && t.user_type
                == s.user_type && t.opponent_type == s.opponent_type && t.user_nfts == s.user_nfts
                && t.round_owner == s.round_owner && t.round_actor == s.round_actor && t.winner
                == s.winner),
            old(self).session matches Some(s) ==> (final(self).runtime matches Some(rt)
                && rt.time_seed == seed_fold(script_hash@, 0, 8) && rt.clock_seed == seed_fold(
                script_hash@,
                8,
                16,
            ) && rt.boosted && rt.entry == old(self).lua_entry && (old(self).mode == P2pMode::Client
                ==> rt.first_nfts@ == s.user_nfts@ && rt.second_nfts@ == opponent_nfts@)),
            final(self).randomseed.state == seed_of(hash@),
            pushed_hash_result(
                old(self).callbacks.entries(),
                final(self).callbacks.entries(),
                callback,
                hash@,
            ),
            final(self).events.entries() == old(self).events.entries(),
            final(self).mode == old(self).mode,
            final(self).open_channel_listener == old(self).open_channel_listener,
            same_config(*final(self), *old(self)),
    {
        let mut sess = self.session.take().unwrap();
        sess.script_hash = script_hash;
        sess.opponent_nfts = opponent_nfts;
        self.session = Some(sess);
        self.boot_runtime_from(&hash);
        let hx = hex_encode(&hash);
        let args = two_args(Value::Bool(true), Value::Str(hx));
        let ghost pre = self.callbacks.entries();
        self.callbacks.push(DeferredCall { callback, args });
        proof {
            assert(self.callbacks.entries().drop_last() =~= pre);
        }
    }

    /// The background channel-open negotiation failed: the caller's
    /// callback is enqueued with the error, nothing else changes.
    pub fn channel_open_failed(&mut self, error: String, callback: CallbackId)
        ensures
            pushed_call(
                old(self).callbacks.entries(),
                final(self).callbacks.entries(),
                callback,
                seq![Value::Bool(false), Value::Str(error)],
            ),
            final(self).events.entries() == old(self).events.entries(),
            same_config(*final(self), *old(self)),
            same_channel(*final(self), *old(self)),
    {
        let args = two_args(Value::Bool(false), Value::Str(error));
        let ghost pre = self.callbacks.entries();
        self.callbacks.push(DeferredCall { callback, args });
        proof {
            assert(self.callbacks.entries().drop_last() =~= pre);
        }
    }

    /// The background channel closure succeeded: the transport is torn
    /// down, the session ends, and the success callback carries the
    /// hex-encoded closing hash.
    pub fn close_channel_succeeded(&mut self, hash: Vec<u8>, callback: CallbackId)
        ensures
            final(self).mode == P2pMode::Disconnected,
            final(self).session is None,
            final(self).runtime is None,
            pushed_hash_result(
                old(self).callbacks.entries(),
                final(self).callbacks.entries(),
                callback,
                hash@,
            ),
            final(self).events.entries() == old(self).events.entries(),
            same_config(*final(self), *old(self)),
            final(self).randomseed == old(self).randomseed,
            final(self).open_channel_listener == old(self).open_channel_listener,
    {
        self.mode = P2pMode::Disconnected;
        self.session = None;
        self.runtime = None;
        let hx = hex_encode(&hash);
        let args = two_args(Value::Bool(true), Value::Str(hx));
        let ghost pre = self.callbacks.entries();
        self.callbacks.push(DeferredCall { callback, args });
        proof {
            assert(self.callbacks.entries().drop_last() =~= pre);
        }
    }

    /// The background channel closure failed: the failure callback is
    /// enqueued and the session stays intact for a retry.
    pub fn close_channel_failed(&mut self, error: String, callback: CallbackId)
        ensures
            pushed_call(
                old(self).callbacks.entries(),
                final(self).callbacks.entries(),
                callback,
                seq![Value::Bool(false), Value::Str(error)],
            ),
            final(self).events.entries() == old(self).events.entries(),
            same_config(*final(self), *old(self)),
            same_channel(*final(self), *old(self)),
    {
        let args = two_args(Value::Bool(false), Value::Str(error));
        let ghost pre = self.callbacks.entries();
        self.callbacks.push(DeferredCall { callback, args });
        proof {
            assert(self.callbacks.entries().drop_last() =~= pre);
        }
    }

    /// Record the winner. Only the round owner performs the on-chain
    /// finalize, so when the local player is not the owner the callback
    /// is to be invoked now, synchronously, with success and the winner —
    /// no background work and nothing enqueued.
    pub fn close_game(&mut self, winner: u8, _callback: CallbackId) -> (r: CloseGameAction)
        requires
            old(self).session is Some,
        ensures
            old(self).session matches Some(s) ==> (final(self).session matches Some(t) && t.winner
                == Some(winner) && t.user_type == s.user_type && t.opponent_type == s.opponent_type
                && t.script_hash == s.script_hash && t.user_nfts == s.user_nfts && t.opponent_nfts
                == s.opponent_nfts && t.round_owner == s.round_owner && t.round_actor
                == s.round_actor),
            old(self).session matches Some(s) ==> ((s.round_owner == s.user_type ==> r
                == CloseGameAction::NotifyPeer) && (s.round_owner != s.user_type ==> (r matches
            CloseGameAction::InvokeNow { args } && args@ == seq![
                Value::Bool(true),
                Value::Int(winner as i64),
            ]))),
            same_queues(*final(self), *old(self)),
            same_config(*final(self), *old(self)),
            final(self).mode == old(self).mode,
            final(self).runtime == old(self).runtime,
            final(self).randomseed == old(self).randomseed,
            final(self).open_channel_listener == old(self).open_channel_listener,
    {
        match &mut self.session {
            Some(s) => {
                s.winner = Some(winner);
                if s.round_owner == s.user_type {
                    CloseGameAction::NotifyPeer
                } else {
                    let args = two_args(Value::Bool(true), Value::Int(winner as i64));
                    CloseGameAction::InvokeNow { args }
                }
            },
            None => {
                proof {
                    assert(false);
                }
                CloseGameAction::NotifyPeer
            },
        }
    }

    /// The round owner's background game-over notification succeeded.
    pub fn game_over_reported(&mut self, winner: u8, callback: CallbackId)
        ensures
            pushed_call(
                old(self).callbacks.entries(),
                final(self).callbacks.entries(),
                callback,
                seq![Value::Bool(true), Value::Int(winner as i64)],
            ),
            final(self).events.entries() == old(self).events.entries(),
            same_config(*final(self), *old(self)),
            same_channel(*final(self), *old(self)),
    {
        let args = two_args(Value::Bool(true), Value::Int(winner as i64));
        let ghost pre = self.callbacks.entries();
        self.callbacks.push(DeferredCall { callback, args });
        proof {
            assert(self.callbacks.entries().drop_last() =~= pre);
        }
    }

    /// The round owner's background game-over notification failed.
    pub fn game_over_failed(&mut self, error: String, callback: CallbackId)
        ensures
            pushed_call(
                old(self).callbacks.entries(),
                final(self).callbacks.entries(),
                callback,
                seq![Value::Bool(false), Value::Str(error)],
            ),
            final(self).events.entries() == old(self).events.entries(),
            same_config(*final(self), *old(self)),
            same_channel(*final(self), *old(self)),
    {
        let args = two_args(Value::Bool(false), Value::Str(error));
        let ghost pre = self.callbacks.entries();
        self.callbacks.push(DeferredCall { callback, args });
        proof {
            assert(self.callbacks.entries().drop_last() =~= pre);
        }
    }

    /// A non-terminal sync finished: success with no detail.
    pub fn sync_applied(&mut self, callback: CallbackId)
        ensures
            pushed_call(
                old(self).callbacks.entries(),
                final(self).callbacks.entries(),
                callback,
                seq![Value::Bool(true), Value::Nil],
            ),
            final(self).events.entries() == old(self).events.entries(),
            same_config(*final(self), *old(self)),
            same_channel(*final(self), *old(self)),
    {
        let args = two_args(Value::Bool(true), Value::Nil);
        let ghost pre = self.callbacks.entries();
        self.callbacks.push(DeferredCall { callback, args });
        proof {
            assert(self.callbacks.entries().drop_last() =~= pre);
        }
    }

    /// Applying the sync instruction failed: the round does not advance
    /// and the shared pseudo-random source is untouched.
    pub fn sync_operation_failed(&mut self, error: String, callback: CallbackId)
        ensures
            pushed_call(
                old(self).callbacks.entries(),
                final(self).callbacks.entries(),
                callback,
                seq![Value::Bool(false), Value::Str(error)],
            ),
            final(self).events.entries() == old(self).events.entries(),
            same_config(*final(self), *old(self)),
            same_channel(*final(self), *old(self)),
    {
        let args = two_args(Value::Bool(false), Value::Str(error));
        let ghost pre = self.callbacks.entries();
        self.callbacks.push(DeferredCall { callback, args });
        proof {
            assert(self.callbacks.entries().drop_last() =~= pre);
        }
    }

    /// A terminal sync's round switch was agreed with the given
    /// signature: reseed from it, then report success.
    pub fn round_switched(&mut self, signature: Vec<u8>, callback: CallbackId)
        ensures
            final(self).randomseed.state == seed_of(signature@),
            pushed_call(
                old(self).callbacks.entries(),
                final(self).callbacks.entries(),
                callback,
                seq![Value::Bool(true), Value::Nil],
            ),
            final(self).events.entries() == old(self).events.entries(),
            same_config(*final(self), *old(self)),
            final(self).mode == old(self).mode,
            final(self).session == old(self).session,
            final(self).runtime == old(self).runtime,
            final(self).open_channel_listener == old(self).open_channel_listener,
    {
        self.randomseed.reseed(&signature);
        let args = two_args(Value::Bool(true), Value::Nil);
        let ghost pre = self.callbacks.entries();
        self.callbacks.push(DeferredCall { callback, args });
        proof {
            assert(self.callbacks.entries().drop_last() =~= pre);
        }
    }

    /// A terminal sync's round switch was refused: the round does not
    /// advance and the shared pseudo-random source is untouched.
    pub fn round_switch_failed(&mut self, error: String, callback: CallbackId)
        ensures
            pushed_call(
                old(self).callbacks.entries(),
                final(self).callbacks.entries(),
                callback,
                seq![Value::Bool(false), Value::Str(error)],
            ),
            final(self).events.entries() == old(self).events.entries(),
            same_config(*final(self), *old(self)),
            same_channel(*final(self), *old(self)),
    {
        let args = two_args(Value::Bool(false), Value::Str(error));
        let ghost pre = self.callbacks.entries();
        self.callbacks.push(DeferredCall { callback, args });
        proof {
            assert(self.callbacks.entries().drop_last() =~= pre);
        }
    }

    /// An asset transaction succeeded; the caller refreshed local state
    /// already and the success callback now carries the detail value.
    pub fn transaction_succeeded(&mut self, detail: Value, callback: CallbackId)
        ensures
            pushed_call(
                old(self).callbacks.entries(),
                final(self).callbacks.entries(),
                callback,
                seq![Value::Bool(true), detail],
            ),
            final(self).events.entries() == old(self).events.entries(),
            same_config(*final(self), *old(self)),
            same_channel(*final(self), *old(self)),
    {
        let args = two_args(Value::Bool(true), detail);
        let ghost pre = self.callbacks.entries();
        self.callbacks.push(DeferredCall { callback, args });
        proof {
            assert(self.callbacks.entries().drop_last() =~= pre);
        }
    }

    /// An asset transaction failed: the failure callback carries the
    /// error, no state is refreshed.
    pub fn transaction_failed(&mut self, error: String, callback: CallbackId)
        ensures
            pushed_call(
                old(self).callbacks.entries(),
                final(self).callbacks.entries(),
                callback,
                seq![Value::Bool(false), Value::Str(error)],
            ),
            final(self).events.entries() == old(self).events.entries(),
            same_config(*final(self), *old(self)),
            same_channel(*final(self), *old(self)),
    {
        let args = two_args(Value::Bool(false), Value::Str(error));
        let ghost pre = self.callbacks.entries();
        self.callbacks.push(DeferredCall { callback, args });
        proof {
            assert(self.callbacks.entries().drop_last() =~= pre);
        }
    }

    /// Drain the event queue for one presentation tick: every buffered
    /// event exactly once, in push order. Draining an owned-asset update
    /// also resets the configured deck, as the presentation layer
    /// re-reads it from the fresh holdings.
    pub fn drain_events(&mut self) -> (out: Vec<Event>)
        ensures
            out@ == old(self).events.entries(),
            final(self).events.entries() == Seq::<Event>::empty(),
            final(self).callbacks.entries() == old(self).callbacks.entries(),
            final(self).nfts@ == if has_owned_update(out@) {
                Seq::<String>::empty()
            } else {
                old(self).nfts@
            },
            final(self).lua_entry == old(self).lua_entry,
            final(self).nickname == old(self).nickname,
            final(self).hooks == old(self).hooks,
            final(self).p2p_bindings == old(self).p2p_bindings,
            final(self).owned_nfts == old(self).owned_nfts,
            final(self).box_status == old(self).box_status,
            same_channel(*final(self), *old(self)),
    {
        let out = self.events.drain();
        let mut clear = false;
        let mut i: usize = 0;
        while i < out.len()
            invariant
                i <= out@.len(),
                clear == has_owned_update(out@.take(i as int)),
            decreases out@.len() - i,
        {
            proof {
                assert(out@.take(i + 1).drop_last() =~= out@.take(i as int));
                assert(out@.take(i + 1).last() == out@[i as int]);
            }
            match &out[i] {
                Event::OwnedNftsUpdated { .. } => {
                    clear = true;
                },
                _ => {},
            }
            i = i + 1;
        }
        proof {
            assert(out@.take(out@.len() as int) =~= out@);
        }
        if clear {
            self.nfts = Vec::new();
        }
        out
    }

    /// Drain the callback queue for one presentation tick: every
    /// buffered invocation exactly once, in push order, repeated handles
    /// included. Only the designated thread may perform them.
    pub fn drain_callbacks(&mut self) -> (out: Vec<DeferredCall>)
        ensures
            out@ == old(self).callbacks.entries(),
            final(self).callbacks.entries() == Seq::<DeferredCall>::empty(),
            final(self).events.entries() == old(self).events.entries(),
            same_config(*final(self), *old(self)),
            same_channel(*final(self), *old(self)),
    {
        self.callbacks.drain()
    }

    /// Bind a callback to answer the named protocol message; the last
    /// binding of a name wins.
    pub fn reply_p2p_message(&mut self, message: String, callback: CallbackId)
        ensures
            forall|n: Seq<char>| #[trigger] binding_of(final(self).p2p_bindings@, n) == (if n
                == message@ {
                Option::Some(callback)
            } else {
                binding_of(old(self).p2p_bindings@, n)
            }),
            final(self).nfts == old(self).nfts,
            final(self).lua_entry == old(self).lua_entry,
            final(self).nickname == old(self).nickname,
            final(self).hooks == old(self).hooks,
            final(self).owned_nfts == old(self).owned_nfts,
            final(self).box_status == old(self).box_status,
            same_channel(*final(self), *old(self)),
            same_queues(*final(self), *old(self)),
    {
        let ghost pre = self.p2p_bindings@;
        self.p2p_bindings.push((message, callback));
        proof {
            assert(self.p2p_bindings@.drop_last() =~= pre);
        }
    }

    /// The callback bound to the named protocol message, if any.
    pub fn p2p_callback_for(&self, message: &String) -> (r: Option<CallbackId>)
        ensures
            r == binding_of(self.p2p_bindings@, message@),
    {
        let mut j: usize = self.p2p_bindings.len();
        proof {
            assert(self.p2p_bindings@.take(self.p2p_bindings@.len() as int)
                =~= self.p2p_bindings@);
        }
        while j > 0
            invariant
                j <= self.p2p_bindings@.len(),
                binding_of(self.p2p_bindings@, message@) == binding_of(
                    self.p2p_bindings@.take(j as int),
                    message@,
                ),
            decreases j,
        {
            proof {
                assert(self.p2p_bindings@.take(j as int).drop_last() =~= self.p2p_bindings@.take(
                    j - 1,
                ));
                assert(self.p2p_bindings@.take(j as int).last() == self.p2p_bindings@[j - 1]);
            }
            if self.p2p_bindings[j - 1].0 == *message {
                return Some(self.p2p_bindings[j - 1].1);
            }
            j = j - 1;
        }
        None
    }

    /// The remote peer answered a protocol message: forward the reply to
    /// the host engine.
    pub fn p2p_reply_received(&mut self, message: String, parameters: Vec<(String, Value)>)
        ensures
            final(self).events.entries() == old(self).events.entries().push(
                (Event::P2pMessageReply { message, parameters }),
            ),
            final(self).callbacks.entries() == old(self).callbacks.entries(),
            same_config(*final(self), *old(self)),
            same_channel(*final(self), *old(self)),
    {
        self.events.push(Event::P2pMessageReply { message, parameters });
    }
}

/// The flat expansion of (asset, count) pairs for an asset transaction,
/// or nothing when the expansion is empty: an empty request starts no
/// background work at all.
pub fn stage_nft_operation(nfts: &Vec<(String, u64)>) -> (r: Option<Vec<String>>)
    ensures
        expand_counts(nfts@).len() == 0 ==> r is None,
        expand_counts(nfts@).len() > 0 ==> (r matches Some(v) && v@ == expand_counts(nfts@)),
{
    let v = expand_nft_counts(nfts);
    if v.len() == 0 {
        None
    } else {
        Some(v)
    }
}

} // verus!
