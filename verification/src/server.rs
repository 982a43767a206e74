//! The server's acceptor: it owns the bind address and the one shared
//! distribution channel, and starts one session per accepted connection.
//! Binding, accepting and spawning are I/O and live outside this crate.

use vstd::prelude::*;
use crate::channel::{Channel, CHANNEL_CAPACITY};

verus! {

/// The server's configuration: the address it listens on.
pub struct ChatServer {
    pub bind: String,
}

impl ChatServer {
    /// A server that will listen on `bind`.
    pub fn new(bind: String) -> (s: Self)
        ensures
            s.bind == bind,
    {
        ChatServer { bind }
    }

    /// The one distribution channel all sessions of this server share,
    /// with the fixed retained-window capacity.
    pub fn make_channel(&self) -> (c: Channel)
        ensures
            c.wf(),
            c.total() == 0,
            c.cap() == CHANNEL_CAPACITY,
    {
        Channel::new(CHANNEL_CAPACITY)
    }
}

} // verus!
