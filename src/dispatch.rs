use vstd::prelude::*;

use crate::message::{ChatAck, ChatMessage, PeerIdentity};
use crate::session::{peer_after_established, SessionState};

verus! {

/// Outcome of one liveness probe.
#[derive(Clone, Debug, PartialEq, Eq)]
pub enum LivenessOutcome {
    RoundTrip { micros: u64 },
    Failure { reason: String },
}

/// One event delivered to the dispatcher, from the network engine or from the
/// local input source.
///
/// An inbound request carries `channel`, a token that the caller chose for
/// the one-shot channel its answer must go back on.
#[derive(Clone, Debug, PartialEq, Eq)]
pub enum Event {
    ListenerBound { address: String },
    ConnectionEstablished { peer: PeerIdentity },
    ConnectionClosed { peer: PeerIdentity },
    DialFailure { error: String },
    Liveness { peer: PeerIdentity, outcome: LivenessOutcome },
    InboundRequest { peer: PeerIdentity, channel: u64, request: ChatMessage },
    InboundResponse { peer: PeerIdentity, response: ChatAck },
    OutboundFailure { peer: PeerIdentity, error: String },
    InboundFailure { peer: PeerIdentity, error: String },
    ResponseSent { peer: PeerIdentity },
    InputLine { line: String },
    InputEnded,
    Other,
}

/// One command the dispatcher hands back to the network engine.
#[derive(Clone, Debug, PartialEq, Eq)]
pub enum Command {
    /// Remember the configured remote address for `peer`.
    RememberAddress { peer: PeerIdentity },
    /// Send `request` to `peer`.
    SendRequest { peer: PeerIdentity, request: ChatMessage },
    /// Answer the inbound request whose channel token is `channel`.
    SendResponse { channel: u64, response: ChatAck },
}

/// Tracked peer after `e`.
pub open spec fn next_peer(current: Option<PeerIdentity>, e: Event) -> Option<PeerIdentity> {
    match e {
        Event::ConnectionEstablished { peer } => peer_after_established(current, peer),
        Event::ConnectionClosed { .. } => None,
        _ => current,
    }
}

/// Commands issued in reaction to `e` while `current` is tracked.
pub open spec fn commands_for(current: Option<PeerIdentity>, e: Event) -> Seq<Command> {
    match e {
        Event::ConnectionEstablished { peer } => seq![Command::RememberAddress { peer }],
        Event::InboundRequest { channel, .. } => seq![
            Command::SendResponse { channel, response: ChatAck { ack: true } },
        ],
        Event::InputLine { line } => match current {
            Some(peer) => seq![
                Command::SendRequest { peer, request: ChatMessage { message: line } },
            ],
            None => Seq::empty(),
        },
        _ => Seq::empty(),
    }
}

/// The event loop's decisions: owns the session state and turns each event
/// into commands for the network engine.
pub struct Dispatcher {
    pub session: SessionState,
}

impl Dispatcher {
    /// A dispatcher with no tracked peer.
    pub fn new() -> (r: Dispatcher)
        ensures
            r.session.current is None,
    {
        Dispatcher { session: SessionState::new() }
    }

    pub fn current_peer(&self) -> (r: Option<&PeerIdentity>)
        ensures
            r == match self.session.current {
                Some(p) => Some(&p),
                None => None::<&PeerIdentity>,
            },
    {
        self.session.current_peer()
    }

    /// Handles one event to completion and returns the commands it calls for.
    pub fn handle(&mut self, event: Event) -> (cmds: Vec<Command>)
        ensures
            final(self).session.current == next_peer(old(self).session.current, event),
            cmds@ == commands_for(old(self).session.current, event),
    {
        match event {
            Event::ConnectionEstablished { peer } => {
                let remembered = peer.duplicate();
                self.session.on_connection_established(peer);
                vec![Command::RememberAddress { peer: remembered }]
            },
            Event::ConnectionClosed { .. } => {
                self.session.on_connection_closed();
                Vec::new()
            },
            Event::InboundRequest { channel, .. } => {
                vec![Command::SendResponse { channel, response: ChatAck::accepted() }]
            },
            Event::InputLine { line } => match self.session.current_peer() {
                Some(peer) => {
                    let peer = peer.duplicate();
                    vec![Command::SendRequest { peer, request: ChatMessage { message: line } }]
                },
                None => Vec::new(),
            },
            _ => Vec::new(),
        }
    }
}

} // verus!
