//! The command surface: a `server` mode taking a bind address and a
//! `client` mode taking a server address and a display name. Argument
//! parsing itself happens outside this crate; these types carry what it
//! produces.

use vstd::prelude::*;

verus! {

/// The mode the process was asked to run in.
pub enum Commands {
    /// Listen on `bind` and relay lines between all connections.
    Server { bind: String },
    /// Connect to `addr` and chat as `name`.
    Client { addr: String, name: String },
}

/// The parsed command line.
pub struct Cli {
    pub command: Commands,
}

} // verus!
