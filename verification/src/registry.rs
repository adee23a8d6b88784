use vstd::prelude::*;

use crate::errors::PvpError;
use crate::ids::AccountId;

verus! {

/// The registry entry that marks a creator's one active lobby.
#[derive(Clone, Copy, Debug, PartialEq, Eq, Structural)]
pub struct ActiveLobby {
    /// The creator the entry belongs to.
    pub creator: AccountId,
    /// The lobby the creator currently has open.
    pub lobby: AccountId,
}

/// One entry per creator: its existence is itself the "one active lobby
/// per creator" invariant. An entry is created atomically with its lobby
/// and released exactly when the lobby reaches a terminal state.
pub struct LobbyRegistry {
    pub entries: Vec<ActiveLobby>,
}

impl LobbyRegistry {
    /// No creator holds two entries.
    pub open spec fn wf(self) -> bool {
        forall|i: int, j: int|
            0 <= i < j < self.entries@.len() ==> self.entries@[i].creator
                != self.entries@[j].creator
    }

    /// Whether `creator` has an active lobby registered.
    pub open spec fn has_creator(self, creator: AccountId) -> bool {
        exists|i: int| 0 <= i < self.entries@.len() && self.entries@[i].creator == creator
    }

    /// An empty registry.
    pub fn new() -> (r: LobbyRegistry)
        ensures
            r.wf(),
            r.entries@.len() == 0,
    {
        LobbyRegistry { entries: Vec::new() }
    }

    /// The index of `creator`'s entry, if any.
    fn find(&self, creator: AccountId) -> (r: Option<usize>)
        ensures
            r matches Some(i) ==> i < self.entries@.len() && self.entries@[i as int].creator
                == creator,
            r is None ==> !self.has_creator(creator),
    {
        let mut i: usize = 0;
        while i < self.entries.len()
            invariant
                i <= self.entries@.len(),
                forall|j: int| 0 <= j < i ==> self.entries@[j].creator != creator,
            decreases self.entries@.len() - i,
        {
            if self.entries[i].creator == creator {
                return Some(i);
            }
            i += 1;
        }
        None
    }

    /// Whether `creator` has an active lobby registered.
    pub fn contains(&self, creator: AccountId) -> (b: bool)
        ensures
            b == self.has_creator(creator),
    {
        match self.find(creator) {
            Some(i) => {
                proof {
                    assert(self.entries@[i as int].creator == creator);
                }
                true
            },
            None => false,
        }
    }

    /// Register `creator`'s active lobby; fails with `DuplicateActiveLobby`
    /// if one is already registered, so a creator can never hold two open
    /// lobbies at once.
    pub fn register(&mut self, creator: AccountId, lobby: AccountId) -> (r: Result<(), PvpError>)
        requires
            old(self).wf(),
        ensures
            final(self).wf(),
            old(self).has_creator(creator) ==> r == Err::<(), PvpError>(
                PvpError::DuplicateActiveLobby,
            ) && final(self).entries@ == old(self).entries@,
            !old(self).has_creator(creator) ==> r is Ok && final(self).entries@ == old(
                self,
            ).entries@.push(ActiveLobby { creator, lobby }),
    {
        match self.find(creator) {
            Some(i) => {
                proof {
                    assert(self.entries@[i as int].creator == creator);
                }
                Err(PvpError::DuplicateActiveLobby)
            },
            None => {
                self.entries.push(ActiveLobby { creator, lobby });
                Ok(())
            },
        }
    }

    /// Release `creator`'s entry, if any; reports whether one was there.
    /// Every other creator's registration is untouched.
    pub fn release(&mut self, creator: AccountId) -> (removed: bool)
        requires
            old(self).wf(),
        ensures
            final(self).wf(),
            removed == old(self).has_creator(creator),
            !final(self).has_creator(creator),
            forall|c: AccountId|
                c != creator ==> (final(self).has_creator(c) == old(self).has_creator(c)),
            removed ==> final(self).entries@.len() + 1 == old(self).entries@.len(),
            !removed ==> final(self).entries@ == old(self).entries@,
    {
        let idx = match self.find(creator) {
            Some(i) => i,
            None => {
                return false;
            },
        };
        let ghost pre = self.entries@;
        self.entries.remove(idx);
        proof {
            assert(self.entries@ =~= pre.remove(idx as int));
            // whatever identity an entry had before, it keeps: every
            // surviving index maps to an old index
            assert forall|k: int| 0 <= k < self.entries@.len() implies (#[trigger] self.entries@[
                k
            ]) == (if k < idx {
                pre[k]
            } else {
                pre[k + 1]
            }) by {}
            assert forall|c: AccountId|
                c != creator implies (final(self).has_creator(c) == old(self).has_creator(
                c,
            )) by {
                if old(self).has_creator(c) {
                    let i = choose|i: int|
                        0 <= i < pre.len() && pre[i].creator == c;
                    if i < idx {
                        assert(self.entries@[i].creator == c);
                    } else {
                        assert(i != idx);
                        assert(self.entries@[i - 1].creator == c);
                    }
                }
            }
        }
        true
    }
}

} // verus!
