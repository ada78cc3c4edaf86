//! State of a session.

use vstd::prelude::*;

verus! {

/// State of an MQTT session: whether it is connected to the broker.
#[derive(Clone, Copy, Debug, PartialEq, Eq, Structural)]
pub struct SessionState {
    connected: bool,
}

impl View for SessionState {
    type V = bool;

    /// Whether the session is connected.
    closed spec fn view(&self) -> bool {
        self.connected
    }
}

impl Default for SessionState {
    fn default() -> (r: Self)
        ensures
            r@ == false,
    {
        SessionState { connected: false }
    }
}

impl SessionState {
    /// Whether the session is connected.
    pub fn is_connected(&self) -> (r: bool)
        ensures
            r == self@,
    {
        self.connected
    }

    /// The session is connected from now on.
    pub fn transition_connected(&mut self)
        ensures
            final(self)@ == true,
    {
        self.connected = true;
    }

    /// The session is not connected from now on.
    pub fn transition_disconnected(&mut self)
        ensures
            final(self)@ == false,
    {
        self.connected = false;
    }
}

} // verus!
