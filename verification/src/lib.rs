//! The core of a game server: the wire frames of its command protocol, the
//! routing of commands, the state of a connection, the directory of live
//! sessions, the resolution of reward draws, and the rules of login, accounts
//! and heroes that the handlers apply.

use vstd::prelude::*;

pub mod account;
pub mod clock;
pub mod cmd;
pub mod error;
pub mod exceldb;
pub mod gacha;
pub mod handler;
pub mod hero_groups;
pub mod heroes;
pub mod items;
pub mod login;
pub mod models;
pub mod packet;
pub mod push;
pub mod red_dots;
pub mod registry;
pub mod session;
pub mod text;

verus! {

/// Address the servers bind to.
pub const HOST: &'static str = "127.0.0.1";

/// Name the servers are reached by.
pub const DNS: &'static str = "localhost";

/// Port of the HTTP account service.
pub const HTTPSERVER_PORT: u16 = 21000;

/// Port of the game server.
pub const GAMESERVER_PORT: u16 = 23301;

/// Directory of the TLS certificate.
pub const CERT_DIR: &'static str = "./cert";

/// File of the TLS private key.
pub const KEY_FILE_PATH: &'static str = "./cert/localhost.key";

/// File of the TLS certificate.
pub const CERT_FILE_PATH: &'static str = "./cert/localhost.crt";

/// The player of a server without registration.
pub const USER_ID: u64 = 1337;

/// The name of the player of a server without registration.
pub const USERNAME: &'static str = "Yon";

} // verus!
