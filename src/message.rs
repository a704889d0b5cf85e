use vstd::prelude::*;

verus! {

/// Name of the request/response messaging protocol.
pub const CHAT_PROTOCOL: &'static str = "/chat/1.0.0";

/// Seconds between two liveness probes of a connected peer.
pub const PING_INTERVAL_SECS: u64 = 10;

/// Seconds after which an idle connection is closed by the network engine.
pub const IDLE_CONNECTION_TIMEOUT_SECS: u64 = 30;

/// Identity of a network participant, held as its textual (base58) form.
///
/// Identities are compared by equality only.
#[derive(Clone, Debug, PartialEq, Eq, Hash)]
pub struct PeerIdentity {
    pub text: String,
}

impl PeerIdentity {
    pub fn new(text: String) -> (r: PeerIdentity)
        ensures
            r.text == text,
    {
        PeerIdentity { text }
    }

    pub fn as_str(&self) -> (r: &str)
        ensures
            r@ == self.text@,
    {
        self.text.as_str()
    }

    /// A second value equal to this one.
    pub fn duplicate(&self) -> (r: PeerIdentity)
        ensures
            r == *self,
    {
        PeerIdentity { text: self.text.clone() }
    }
}

/// Payload of an outbound request: one line of chat text.
#[derive(Clone, Debug, PartialEq, Eq)]
pub struct ChatMessage {
    pub message: String,
}

/// Payload of a response: whether the request was accepted.
#[derive(Clone, Copy, Debug, PartialEq, Eq)]
pub struct ChatAck {
    pub ack: bool,
}

impl ChatAck {
    /// The acknowledgement this core answers every request with.
    pub fn accepted() -> (r: ChatAck)
        ensures
            r.ack,
    {
        ChatAck { ack: true }
    }
}

} // verus!
