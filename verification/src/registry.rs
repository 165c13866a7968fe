//! Directory of the live sessions, by player.
//!
//! The directory is a service created once at startup and handed to every
//! connection task. It holds handles, not sessions: a session lives as long as
//! its connection, whether or not the directory still points at it.

use std::collections::HashMap;
use vstd::prelude::*;

verus! {

broadcast use vstd::std_specs::hash::group_hash_axioms;

/// The live sessions, at most one per player.
pub struct SessionRegistry<S> {
    sessions: HashMap<i64, S>,
}

impl<S> View for SessionRegistry<S> {
    type V = Map<i64, S>;

    closed spec fn view(&self) -> Map<i64, S> {
        self.sessions@
    }
}

impl<S> SessionRegistry<S> {
    /// The handle that pushes to the player go to, if the player is connected.
    pub open spec fn target(&self, player_id: i64) -> Option<S> {
        if self@.contains_key(player_id) {
            Some(self@[player_id])
        } else {
            None
        }
    }

    /// A directory without sessions.
    pub fn new() -> (registry: Self)
        ensures
            registry@ == Map::<i64, S>::empty(),
    {
        SessionRegistry { sessions: HashMap::new() }
    }

    /// Number of connected players.
    pub fn len(&self) -> (n: usize)
        ensures
            n == self@.len(),
    {
        self.sessions.len()
    }

    /// Makes `handle` the session of the player. The session that the player
    /// had before, if any, is returned: it stays open but is no longer reached
    /// through the directory.
    pub fn register(&mut self, player_id: i64, handle: S) -> (evicted: Option<S>)
        ensures
            final(self)@ == old(self)@.insert(player_id, handle),
            evicted == old(self).target(player_id),
    {
        self.sessions.insert(player_id, handle)
    }

    /// The session of the player, if the player is connected.
    pub fn lookup(&self, player_id: i64) -> (found: Option<&S>)
        ensures
            found matches Some(handle) ==> self.target(player_id) == Some(*handle),
            found is None ==> self.target(player_id) is None,
    {
        self.sessions.get(&player_id)
    }

    /// Forgets the session of the player and returns it.
    pub fn unregister(&mut self, player_id: i64) -> (removed: Option<S>)
        ensures
            final(self)@ == old(self)@.remove(player_id),
            removed == old(self).target(player_id),
    {
        self.sessions.remove(&player_id)
    }
}

/// Of two registrations for one player the second wins: only its handle is
/// reached through the directory, and the directory is the same as if the
/// first registration had never happened. Other players are not touched.
pub proof fn lemma_last_registration_wins<S>(
    sessions: Map<i64, S>,
    player_id: i64,
    first: S,
    second: S,
)
    ensures
        sessions.insert(player_id, first).insert(player_id, second)[player_id] == second,
        sessions.insert(player_id, first).insert(player_id, second) == sessions.insert(
            player_id,
            second,
        ),
        forall|other: i64|
            other != player_id && sessions.contains_key(other) ==> #[trigger] sessions.insert(
                player_id,
                first,
            ).insert(player_id, second)[other] == sessions[other],
{
    assert(sessions.insert(player_id, first).insert(player_id, second) =~= sessions.insert(
        player_id,
        second,
    ));
}

/// After a player's session was forgotten the directory has none for that
/// player, whatever was registered before.
pub proof fn lemma_unregistered_is_absent<S>(sessions: Map<i64, S>, player_id: i64, handle: S)
    ensures
        !sessions.insert(player_id, handle).remove(player_id).contains_key(player_id),
        !sessions.remove(player_id).contains_key(player_id),
{
}

} // verus!
