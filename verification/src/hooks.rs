//! The named-hook registry. The external protocol/scripting layer invokes
//! a hook when it reaches a named checkpoint; the coordinator registers
//! each handler once at startup. Handlers run on the external layer's
//! thread, so they only update state and enqueue work, never touch the
//! designated thread directly.

use vstd::prelude::*;

verus! {

/// The named checkpoints the protocol layer drives.
#[derive(Clone, Copy, Debug, PartialEq, Eq, Structural)]
pub enum HookName {
    /// A remote peer produced an instruction to apply locally.
    SyncOperation,
    /// Both peers agreed on a round transition.
    SwitchRound,
    /// The on-chain channel-open negotiation completed.
    OpenKabletopChannel,
}

/// Which hooks have a registered handler. Registration is idempotent: the
/// last registration of a name wins, and registering a name twice leaves
/// the registry as if it were registered once.
pub struct HookRegistry {
    entries: Vec<HookName>,
}

impl HookRegistry {
    /// Whether `name` has a registered handler.
    pub closed spec fn is_registered(&self, name: HookName) -> bool {
        self.entries@.contains(name)
    }

    pub fn new() -> (r: Self)
        ensures
            forall|h: HookName| !r.is_registered(h),
    {
        HookRegistry { entries: Vec::new() }
    }

    pub fn has(&self, name: HookName) -> (r: bool)
        ensures
            r == self.is_registered(name),
    {
        let mut i: usize = 0;
        while i < self.entries.len()
            invariant
                i <= self.entries@.len(),
                forall|k: int| 0 <= k < i ==> self.entries@[k] != name,
            decreases self.entries@.len() - i,
        {
            if self.entries[i] == name {
                return true;
            }
            i = i + 1;
        }
        assert(!self.entries@.contains(name));
        false
    }

    /// Register a handler for `name`; other names keep their status.
    pub fn register(&mut self, name: HookName)
        ensures
            final(self).is_registered(name),
            forall|h: HookName| h != name ==> final(self).is_registered(h) == old(
                self,
            ).is_registered(h),
    {
        if !self.has(name) {
            let ghost before = self.entries@;
            self.entries.push(name);
            proof {
                assert(self.entries@.last() == name);
                assert(self.entries@.contains(name));
                assert forall|h: HookName| h != name implies self.entries@.contains(h)
                    == before.contains(h) by {
                    if before.contains(h) {
                        let k = choose|k: int| 0 <= k < before.len() && before[k] == h;
                        assert(self.entries@[k] == h);
                    }
                    if self.entries@.contains(h) {
                        let k = choose|k: int|
                            0 <= k < self.entries@.len() && self.entries@[k] == h;
                        assert(k < before.len());
                        assert(before[k] == h);
                    }
                }
            }
        }
    }
}

} // verus!
