use vstd::prelude::*;

use crate::message::PeerIdentity;

verus! {

/// The peer that local input is addressed to, if any.
///
/// It is set only when a connection is established while no peer is tracked,
/// and cleared only when a connection closes.
pub struct SessionState {
    pub current: Option<PeerIdentity>,
}

/// Tracked peer after a connection with `peer` is established: the first
/// connected peer stays the target until it is cleared.
pub open spec fn peer_after_established(
    current: Option<PeerIdentity>,
    peer: PeerIdentity,
) -> Option<PeerIdentity> {
    match current {
        Some(p) => Some(p),
        None => Some(peer),
    }
}

impl SessionState {
    /// A session with no tracked peer.
    pub fn new() -> (r: SessionState)
        ensures
            r.current is None,
    {
        SessionState { current: None }
    }

    pub fn current_peer(&self) -> (r: Option<&PeerIdentity>)
        ensures
            r == match self.current {
                Some(p) => Some(&p),
                None => None::<&PeerIdentity>,
            },
    {
        match &self.current {
            Some(p) => Some(p),
            None => None,
        }
    }

    /// Reacts to a newly established connection with `peer`.
    pub fn on_connection_established(&mut self, peer: PeerIdentity)
        ensures
            final(self).current == peer_after_established(old(self).current, peer),
    {
        if self.current.is_none() {
            self.current = Some(peer);
        }
    }

    /// Reacts to a closed connection, whichever peer it belonged to.
    pub fn on_connection_closed(&mut self)
        ensures
            final(self).current is None,
    {
        self.current = None;
    }
}

} // verus!
