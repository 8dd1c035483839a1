//! Verified core of an authenticator for Sophos XG firewalls.
//!
//! - `config`: the desktop and the command-line configuration formats, their
//!   defaults, the import of the old format and the entry of credentials.
//! - `ua`: the user agents the programs announce and the choice of the current one.
//! - `protocol`: the login and keepalive requests of the standalone program and
//!   the judgment of the firewall's replies.
//! - `session`: the command-line programs' login/keepalive loop as a state machine.
//! - `update`: the desktop program's background loop as a state machine.
//! - `gui`: the desktop window's state, without the drawing.
//! - `text`: decimal rendering, search and trimming on character sequences.

pub mod config;
pub mod gui;
pub mod protocol;
pub mod session;
pub mod text;
pub mod ua;
pub mod update;
