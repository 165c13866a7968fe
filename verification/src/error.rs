//! Errors a command can end in.

use crate::packet::CmdId;
use crate::packet::DecodeError;
use vstd::prelude::*;

verus! {

/// A request that could not be routed.
#[derive(Clone, Copy, Debug, PartialEq, Eq, Structural)]
pub enum CmdError {
    /// The number on the wire names no command of the protocol; it is kept for diagnostics.
    UnregisteredCmd(u16),
    /// The command belongs to the protocol but no handler is bound to it.
    UnhandledCmd(CmdId),
}

/// Everything that can end one command early.
#[derive(Clone, Debug, PartialEq, Eq)]
pub enum AppError {
    /// The handler needs a bound identity and the session has none.
    NotLoggedIn,
    /// A required field of the request payload is missing or malformed.
    InvalidRequest,
    /// The request could not be routed.
    Cmd(CmdError),
    /// The frame could not be read.
    Packet(DecodeError),
    /// A storage call failed; the text is the collaborator's message.
    Database(String),
    /// A rejection by the rules of the game or of the account.
    Custom(String),
}

impl AppError {
    /// Whether this is a `Custom` rejection with the given text.
    pub open spec fn is_custom(self, text: Seq<char>) -> bool {
        self matches AppError::Custom(m) && m@ == text
    }

    /// Whether the error is a failure of identity: the command needed a
    /// logged-in player and the connection has none. Such an error closes the
    /// connection; every other error ends the command only.
    pub fn is_identity_failure(&self) -> (identity: bool)
        ensures
            identity == (*self is NotLoggedIn),
    {
        match self {
            AppError::NotLoggedIn => true,
            _ => false,
        }
    }

    /// Whether this is a storage failure with the given text.
    pub open spec fn is_database(self, text: Seq<char>) -> bool {
        self matches AppError::Database(m) && m@ == text
    }
}

} // verus!
