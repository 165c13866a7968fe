//! Routing of inbound commands.
//!
//! The registry is filled once at startup: every command of the protocol is
//! declared, and a handler is bound to those the server implements. Routing a
//! frame then only reads the registry.

use crate::error::AppError;
use crate::error::CmdError;
use crate::packet::parse_request;
use crate::packet::ClientPacket;
use crate::packet::CmdId;
use crate::packet::RequestModel;
use std::collections::HashMap;
use vstd::prelude::*;

verus! {

broadcast use vstd::std_specs::hash::group_hash_axioms;

/// Where a command number leads in a table of declared commands.
pub open spec fn route_of<H>(table: Map<u16, Option<H>>, raw: u16) -> Result<H, CmdError> {
    if !table.contains_key(raw) {
        Err(CmdError::UnregisteredCmd(raw))
    } else {
        match table[raw] {
            Some(h) => Ok(h),
            None => Err(CmdError::UnhandledCmd(CmdId(raw))),
        }
    }
}

/// The commands of the protocol and the handler bound to each.
pub struct CommandRegistry<H> {
    routes: HashMap<u16, Option<H>>,
}

/// A request together with the handler that must run for it.
pub struct Routed<'a, H> {
    pub packet: ClientPacket,
    pub cmd_id: CmdId,
    pub handler: &'a H,
}

impl<H> View for CommandRegistry<H> {
    type V = Map<u16, Option<H>>;

    closed spec fn view(&self) -> Map<u16, Option<H>> {
        self.routes@
    }
}

impl<H> CommandRegistry<H> {
    /// Whether the number names a command of the protocol.
    pub open spec fn knows(&self, raw: u16) -> bool {
        self@.contains_key(raw)
    }

    /// Whether a handler is bound to the command.
    pub open spec fn bound(&self, id: CmdId) -> bool {
        self@.contains_key(id.0) && self@[id.0] is Some
    }

    /// A registry that knows no command.
    pub fn new() -> (registry: Self)
        ensures
            registry@ == Map::<u16, Option<H>>::empty(),
    {
        CommandRegistry { routes: HashMap::new() }
    }

    /// Makes the command a member of the protocol. A command that is already
    /// declared keeps its handler. Returns whether the command is new.
    pub fn declare(&mut self, id: CmdId) -> (fresh: bool)
        ensures
            fresh == !old(self).knows(id.0),
            fresh ==> final(self)@ == old(self)@.insert(id.0, None),
            !fresh ==> final(self)@ == old(self)@,
    {
        if self.routes.contains_key(&id.0) {
            false
        } else {
            self.routes.insert(id.0, None);
            true
        }
    }

    /// Binds the handler to the command, declaring the command if need be. A
    /// command keeps the first handler bound to it: a second binding changes
    /// nothing and returns `false`.
    pub fn bind(&mut self, id: CmdId, handler: H) -> (fresh: bool)
        ensures
            fresh == !old(self).bound(id),
            fresh ==> final(self)@ == old(self)@.insert(id.0, Some(handler)),
            !fresh ==> final(self)@ == old(self)@,
    {
        let taken = match self.routes.get(&id.0) {
            Some(slot) => slot.is_some(),
            None => false,
        };
        if taken {
            false
        } else {
            self.routes.insert(id.0, Some(handler));
            true
        }
    }

    /// Number of declared commands.
    pub fn len(&self) -> (n: usize)
        ensures
            n == self@.len(),
    {
        self.routes.len()
    }

    /// Reads the number as a command of the protocol.
    pub fn resolve(&self, raw: u16) -> (id: Option<CmdId>)
        ensures
            id == if self.knows(raw) {
                Some(CmdId(raw))
            } else {
                None
            },
    {
        if self.routes.contains_key(&raw) {
            Some(CmdId(raw))
        } else {
            None
        }
    }

    /// Finds the one handler for a command number.
    pub fn route(&self, raw: u16) -> (r: Result<&H, CmdError>)
        ensures
            r matches Ok(h) ==> route_of(self@, raw) == Ok::<H, CmdError>(*h),
            r matches Err(e) ==> route_of(self@, raw) == Err::<H, CmdError>(e),
    {
        match self.routes.get(&raw) {
            None => Err(CmdError::UnregisteredCmd(raw)),
            Some(slot) => match slot {
                Some(h) => Ok(h),
                None => Err(CmdError::UnhandledCmd(CmdId(raw))),
            },
        }
    }
}

/// Reads one request frame and finds the handler that must run for it.
///
/// A frame that cannot be read ends in `AppError::Packet`. A number that names
/// no command ends in `UnregisteredCmd` with that number, a command without a
/// handler in `UnhandledCmd` with the command. Otherwise the result holds the
/// request and the one handler bound to its command.
pub fn dispatch_command<'a, H>(registry: &'a CommandRegistry<H>, req: &[u8]) -> (r: Result<
    Routed<'a, H>,
    AppError,
>)
    ensures
        parse_request(req@) matches Err(e) ==> (r matches Err(AppError::Packet(d)) && d == e),
        parse_request(req@) matches Ok(p) ==> match route_of(registry@, p.cmd_id) {
            Err(e) => (r matches Err(AppError::Cmd(c)) && c == e),
            Ok(h) => (r matches Ok(routed) && routed.packet@ == p && routed.cmd_id == CmdId(
                p.cmd_id,
            ) && *routed.handler == h),
        },
{
    let packet = match ClientPacket::decode(req) {
        Ok(packet) => packet,
        Err(e) => {
            return Err(AppError::Packet(e));
        },
    };
    match registry.route(packet.cmd_id) {
        Ok(handler) => {
            let cmd_id = CmdId(packet.cmd_id);
            Ok(Routed { packet, cmd_id, handler })
        },
        Err(e) => Err(AppError::Cmd(e)),
    }
}

} // verus!
