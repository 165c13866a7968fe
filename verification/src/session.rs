//! The state of one client connection.
//!
//! A session is owned by the task of its connection; every operation takes it
//! by exclusive reference, so a check and the update that follows it cannot be
//! interleaved with another caller's. Operations that answer the client return
//! the envelope to transmit; the transport sends envelopes of one session in
//! the order in which they were made.

use crate::error::AppError;
use crate::packet::CmdId;
use crate::packet::CommandPacket;
use crate::packet::PacketModel;
use vstd::prelude::*;

verus! {

/// Text of the error that a second identity on one connection ends in.
pub open spec fn already_bound_text() -> Seq<char> {
    "Connection is bound to another player"@
}

/// The tag that follows `tag`: one more, and 0 after 255.
pub open spec fn tag_after(tag: u8) -> u8 {
    if tag == 255 {
        0
    } else {
        (tag + 1) as u8
    }
}

/// Mathematical value of a session.
pub struct SessionModel {
    /// The player this connection belongs to, once login succeeded.
    pub player_id: Option<i64>,
    /// The tag of the next outbound envelope.
    pub next_down_tag: u8,
    /// Whether the account summary was pushed in the current epoch.
    pub state_pushes_marked: bool,
    /// Whether the directory of live sessions points at this session.
    pub registered: bool,
}

impl SessionModel {
    /// The session of a connection that was just accepted.
    pub open spec fn fresh() -> SessionModel {
        SessionModel {
            player_id: None,
            next_down_tag: 0,
            state_pushes_marked: false,
            registered: false,
        }
    }

    /// The session after one envelope left.
    pub open spec fn after_send(self) -> SessionModel {
        SessionModel { next_down_tag: tag_after(self.next_down_tag), ..self }
    }

    /// Whether `id` may be bound: no identity yet, or the same one.
    pub open spec fn accepts(self, id: i64) -> bool {
        self.player_id is None || self.player_id == Some(id)
    }

    /// The session after `id` was bound: a new epoch starts.
    pub open spec fn bound_to(self, id: i64) -> SessionModel {
        SessionModel { player_id: Some(id), state_pushes_marked: false, ..self }
    }

    /// The session after one check of the account-summary pushes.
    pub open spec fn after_check(self) -> SessionModel {
        SessionModel { state_pushes_marked: true, ..self }
    }

    /// What one check of the account-summary pushes answers.
    pub open spec fn check_answer(self) -> bool {
        !self.state_pushes_marked
    }

    /// The session after it was entered in the directory: a session without
    /// a player is not entered.
    pub open spec fn after_registration(self) -> SessionModel {
        SessionModel { registered: self.player_id is Some, ..self }
    }

    /// The session after another session of its player took its place in the
    /// directory, or after it was taken out.
    pub open spec fn after_eviction(self) -> SessionModel {
        SessionModel { registered: false, ..self }
    }

    /// The player whose entry in the directory is this session's, if the
    /// directory points at this session.
    pub open spec fn registry_key(self) -> Option<i64> {
        if self.registered {
            self.player_id
        } else {
            None
        }
    }
}

/// The state of one client connection.
#[derive(Debug)]
pub struct ConnectionContext {
    player_id: Option<i64>,
    next_down_tag: u8,
    state_pushes_marked: bool,
    registered: bool,
}

impl View for ConnectionContext {
    type V = SessionModel;

    closed spec fn view(&self) -> SessionModel {
        SessionModel {
            player_id: self.player_id,
            next_down_tag: self.next_down_tag,
            state_pushes_marked: self.state_pushes_marked,
            registered: self.registered,
        }
    }
}

impl ConnectionContext {
    /// The session of a connection that was just accepted.
    pub fn new() -> (session: Self)
        ensures
            session@ == SessionModel::fresh(),
    {
        ConnectionContext {
            player_id: None,
            next_down_tag: 0,
            state_pushes_marked: false,
            registered: false,
        }
    }

    /// The player this connection belongs to, if login succeeded.
    pub fn player_id(&self) -> (id: Option<i64>)
        ensures
            id == self@.player_id,
    {
        self.player_id
    }

    /// The bound player, or `NotLoggedIn`.
    pub fn require_player(&self) -> (r: Result<i64, AppError>)
        ensures
            r == match self@.player_id {
                Some(id) => Ok::<i64, AppError>(id),
                None => Err::<i64, AppError>(AppError::NotLoggedIn),
            },
    {
        match self.player_id {
            Some(id) => Ok(id),
            None => Err(AppError::NotLoggedIn),
        }
    }

    /// Binds the connection to a player and starts a new push epoch. A
    /// connection that belongs to another player is left as it is and the
    /// binding is refused.
    pub fn bind_identity(&mut self, id: i64) -> (r: Result<(), AppError>)
        ensures
            old(self)@.accepts(id) ==> r is Ok && final(self)@ == old(self)@.bound_to(id),
            !old(self)@.accepts(id) ==> (r matches Err(e) && e.is_custom(already_bound_text()))
                && final(self)@ == old(self)@,
    {
        let free = match self.player_id {
            None => true,
            Some(current) => current == id,
        };
        if free {
            self.player_id = Some(id);
            self.state_pushes_marked = false;
            Ok(())
        } else {
            Err(AppError::Custom("Connection is bound to another player".to_owned()))
        }
    }

    /// Notes that the directory of live sessions now points at this session,
    /// and returns the player it was entered for. A session without a player
    /// is not entered: the answer is none and nothing changes.
    pub fn mark_registered(&mut self) -> (player: Option<i64>)
        ensures
            player == old(self)@.player_id,
            final(self)@ == old(self)@.after_registration(),
    {
        self.registered = self.player_id.is_some();
        self.player_id
    }

    /// Notes that another session of the player took this one's place in the
    /// directory. The connection stays open; it is no longer the target of
    /// pushes to the player.
    pub fn mark_evicted(&mut self)
        ensures
            final(self)@ == old(self)@.after_eviction(),
    {
        self.registered = false;
    }

    /// Closes the session: says which entry of the directory must be removed,
    /// and notes that it is removed. There is none for a session that was
    /// never entered or that was evicted.
    pub fn close(&mut self) -> (key: Option<i64>)
        ensures
            key == old(self)@.registry_key(),
            final(self)@ == old(self)@.after_eviction(),
    {
        let key = if self.registered {
            self.player_id
        } else {
            None
        };
        self.registered = false;
        key
    }

    /// Hands out the tag of the next outbound envelope.
    pub fn next_down_tag(&mut self) -> (tag: u8)
        ensures
            tag == old(self)@.next_down_tag,
            final(self)@ == old(self)@.after_send(),
    {
        let tag = self.next_down_tag;
        self.next_down_tag = if tag == 255 {
            0
        } else {
            tag + 1
        };
        tag
    }

    /// Makes the one reply to a request. The reply repeats the request's
    /// `up_tag` whatever the result code, and takes the session's next down tag.
    pub fn send_reply(&mut self, cmd_id: CmdId, payload: Vec<u8>, result_code: i16, up_tag: u8) -> (packet:
        CommandPacket)
        ensures
            packet@ == (PacketModel::Reply {
                cmd_id,
                body: payload@,
                result_code,
                up_tag,
                down_tag: old(self)@.next_down_tag,
            }),
            final(self)@ == old(self)@.after_send(),
    {
        let down_tag = self.next_down_tag();
        CommandPacket::Reply { cmd_id, body: payload, result_code, up_tag, down_tag }
    }

    /// Makes a reply whose payload was serialized beforehand, such as an error
    /// body. Tags are assigned as for every reply.
    pub fn send_raw_reply_fixed(
        &mut self,
        cmd_id: CmdId,
        payload: Vec<u8>,
        result_code: i16,
        up_tag: u8,
    ) -> (packet: CommandPacket)
        ensures
            packet@ == (PacketModel::Reply {
                cmd_id,
                body: payload@,
                result_code,
                up_tag,
                down_tag: old(self)@.next_down_tag,
            }),
            final(self)@ == old(self)@.after_send(),
    {
        self.send_reply(cmd_id, payload, result_code, up_tag)
    }

    /// Makes a reply without a payload.
    pub fn send_empty_reply(&mut self, cmd_id: CmdId, result_code: i16, up_tag: u8) -> (packet:
        CommandPacket)
        ensures
            packet@ == (PacketModel::Reply {
                cmd_id,
                body: Seq::<u8>::empty(),
                result_code,
                up_tag,
                down_tag: old(self)@.next_down_tag,
            }),
            final(self)@ == old(self)@.after_send(),
    {
        self.send_reply(cmd_id, Vec::new(), result_code, up_tag)
    }

    /// Makes a push with the session's next down tag.
    pub fn send_push(&mut self, cmd_id: CmdId, payload: Vec<u8>) -> (packet: CommandPacket)
        ensures
            packet@ == (PacketModel::Push {
                cmd_id,
                body: payload@,
                down_tag: old(self)@.next_down_tag,
            }),
            final(self)@ == old(self)@.after_send(),
    {
        let down_tag = self.next_down_tag();
        CommandPacket::Push { cmd_id, body: payload, down_tag }
    }

    /// Asks whether the account summary is still to be pushed in this epoch,
    /// and marks it as pushed. The answer is `true` for the first caller of an
    /// epoch and `false` for every later one.
    pub fn check_and_mark_state_pushes(&mut self) -> (should_push: bool)
        ensures
            should_push == old(self)@.check_answer(),
            final(self)@ == old(self)@.after_check(),
    {
        let should_push = !self.state_pushes_marked;
        self.state_pushes_marked = true;
        should_push
    }
}

/// Of two checks in one epoch, the second answers `false`; the first answers
/// `true` exactly when no check came before it. So within an epoch the answer
/// `true` is given once.
pub proof fn lemma_state_pushes_once(s: SessionModel)
    ensures
        !s.after_check().check_answer(),
        !(s.check_answer() && s.after_check().check_answer()),
        !s.state_pushes_marked ==> s.check_answer(),
        s.after_check().after_check() == s.after_check(),
{
}

/// A session that was evicted removes nothing from the directory when it
/// closes, so the session that took its place stays reachable; a session that
/// is entered and not evicted removes the entry of its own player.
pub proof fn lemma_evicted_session_removes_nothing(s: SessionModel)
    ensures
        s.after_eviction().registry_key() is None,
        s.after_registration().after_eviction().registry_key() is None,
        s.after_registration().registry_key() == s.player_id,
        SessionModel::fresh().registry_key() is None,
{
}

/// Binding an identity opens a new epoch: the next check answers `true`.
pub proof fn lemma_binding_opens_epoch(s: SessionModel, id: i64)
    ensures
        s.bound_to(id).check_answer(),
        s.bound_to(id).player_id == Some(id),
{
}

/// Sending changes neither the identity nor the epoch, and the tag of the
/// next envelope follows the tag of this one.
pub proof fn lemma_send_keeps_identity(s: SessionModel)
    ensures
        s.after_send().player_id == s.player_id,
        s.after_send().state_pushes_marked == s.state_pushes_marked,
        s.after_send().next_down_tag == tag_after(s.next_down_tag),
        s.next_down_tag < 255 ==> s.after_send().next_down_tag > s.next_down_tag,
{
}

} // verus!
