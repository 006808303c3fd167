//! The live state of a channel: the per-process session snapshot and the
//! model of the injected scripting runtime. Exactly one session and at most
//! one runtime are live at a time; the runtime records what was injected
//! into the external rules engine so that the coordinator's contracts can
//! speak about it.

use vstd::prelude::*;

verus! {

/// The first player opens the channel; the second player listens.
pub const PLAYER_ONE: u8 = 1;

pub const PLAYER_TWO: u8 = 2;

/// The live state of a connection, created on `listen`/`create_channel`
/// and torn down on disconnect or channel close.
pub struct ChannelSession {
    /// The local player's identifier, one or two.
    pub user_type: u8,
    /// The remote player's identifier, the other of one and two.
    pub opponent_type: u8,
    /// Identifies the on-chain channel and seeds round determinism; fixed
    /// length, zero until the channel-open negotiation fills it.
    pub script_hash: Vec<u8>,
    /// The local player's staked assets, in play order.
    pub user_nfts: Vec<String>,
    /// The remote player's staked assets, in play order.
    pub opponent_nfts: Vec<String>,
    /// The player who owns the current round.
    pub round_owner: u8,
    /// The player acting in the current round.
    pub round_actor: u8,
    /// Recorded once the game is over.
    pub winner: Option<u8>,
}

impl ChannelSession {
    /// Well-formedness: player identifiers are the two valid ones and the
    /// script hash always has its fixed 32-byte length.
    pub open spec fn wf(&self) -> bool {
        &&& (self.user_type == PLAYER_ONE || self.user_type == PLAYER_TWO)
        &&& self.opponent_type == 3 - self.user_type
        &&& self.script_hash@.len() == 32
    }

    /// A fresh session for the given local player, holding the locally
    /// staked assets, with a zeroed script hash and no winner.
    pub fn init(player: u8, nfts: Vec<String>) -> (s: Self)
        requires
            player == PLAYER_ONE || player == PLAYER_TWO,
        ensures
            s.wf(),
            s.user_type == player,
            s.opponent_type == 3 - player,
            s.user_nfts == nfts,
            s.opponent_nfts@ == Seq::<String>::empty(),
            forall|i: int| 0 <= i < 32 ==> s.script_hash@[i] == 0u8,
            s.round_owner == player,
            s.round_actor == player,
            s.winner is None,
    {
        let mut hash: Vec<u8> = Vec::new();
        let mut i: usize = 0;
        while i < 32
            invariant
                i <= 32,
                hash@.len() == i,
                forall|k: int| 0 <= k < i ==> hash@[k] == 0u8,
            decreases 32 - i,
        {
            hash.push(0);
            i = i + 1;
        }
        ChannelSession {
            user_type: player,
            opponent_type: 3 - player,
            script_hash: hash,
            user_nfts: nfts,
            opponent_nfts: Vec::new(),
            round_owner: player,
            round_actor: player,
            winner: None,
        }
    }
}

/// What the coordinator injected into the external scripting engine: the
/// two derived seeds, each side's asset list, and the boot entry point.
/// The engine itself runs outside the library; this record is the
/// coordinator's view of the single live instance.
pub struct ScriptRuntime {
    /// First derived seed, from bytes 0..8 of the script hash.
    pub time_seed: i64,
    /// Second derived seed, from bytes 8..16 of the script hash.
    pub clock_seed: i64,
    /// The asset list injected first.
    pub first_nfts: Vec<String>,
    /// The asset list injected second.
    pub second_nfts: Vec<String>,
    /// The entry point the runtime was boosted with.
    pub entry: String,
    /// Whether `boost` ran.
    pub boosted: bool,
    /// The remote-originated code chunks applied so far, oldest first.
    pub executed: Vec<String>,
}

impl ScriptRuntime {
    /// A fresh runtime constructed from the two derived seeds; nothing
    /// injected, nothing boosted, nothing executed yet.
    pub fn new(time_seed: i64, clock_seed: i64) -> (r: Self)
        ensures
            r.time_seed == time_seed,
            r.clock_seed == clock_seed,
            r.first_nfts@ == Seq::<String>::empty(),
            r.second_nfts@ == Seq::<String>::empty(),
            !r.boosted,
            r.executed@ == Seq::<String>::empty(),
    {
        ScriptRuntime {
            time_seed,
            clock_seed,
            first_nfts: Vec::new(),
            second_nfts: Vec::new(),
            entry: String::new(),
            boosted: false,
            executed: Vec::new(),
        }
    }

    /// Inject the two asset lists, in the order the caller fixes.
    pub fn inject_nfts(&mut self, first: Vec<String>, second: Vec<String>)
        ensures
            final(self).first_nfts == first,
            final(self).second_nfts == second,
            final(self).time_seed == old(self).time_seed,
            final(self).clock_seed == old(self).clock_seed,
            final(self).entry == old(self).entry,
            final(self).boosted == old(self).boosted,
            final(self).executed == old(self).executed,
    {
        self.first_nfts = first;
        self.second_nfts = second;
    }

    /// Boot the rules engine at the given entry point.
    pub fn boost(&mut self, entry: String)
        ensures
            final(self).boosted,
            final(self).entry == entry,
            final(self).time_seed == old(self).time_seed,
            final(self).clock_seed == old(self).clock_seed,
            final(self).first_nfts == old(self).first_nfts,
            final(self).second_nfts == old(self).second_nfts,
            final(self).executed == old(self).executed,
    {
        self.entry = entry;
        self.boosted = true;
    }

    /// Record one applied remote-originated code chunk.
    pub fn apply_code(&mut self, code: String)
        ensures
            final(self).executed@ == old(self).executed@.push(code),
            final(self).time_seed == old(self).time_seed,
            final(self).clock_seed == old(self).clock_seed,
            final(self).first_nfts == old(self).first_nfts,
            final(self).second_nfts == old(self).second_nfts,
            final(self).entry == old(self).entry,
            final(self).boosted == old(self).boosted,
    {
        self.executed.push(code);
    }
}

} // verus!
