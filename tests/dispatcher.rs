use p2p_chat::dispatch::{Command, Dispatcher, Event, LivenessOutcome};
use p2p_chat::message::{ChatAck, ChatMessage, PeerIdentity, CHAT_PROTOCOL};
use p2p_chat::session::SessionState;

fn peer(name: &str) -> PeerIdentity {
    PeerIdentity::new(name.to_string())
}

fn established(name: &str) -> Event {
    Event::ConnectionEstablished { peer: peer(name) }
}

fn closed(name: &str) -> Event {
    Event::ConnectionClosed { peer: peer(name) }
}

fn line(text: &str) -> Event {
    Event::InputLine { line: text.to_string() }
}

fn request_to(name: &str, text: &str) -> Command {
    Command::SendRequest { peer: peer(name), request: ChatMessage { message: text.to_string() } }
}

#[test]
fn new_dispatcher_tracks_no_peer() {
    let d = Dispatcher::new();
    assert_eq!(d.current_peer(), None);
}

#[test]
fn dial_failure_is_not_fatal() {
    let mut d = Dispatcher::new();
    let cmds = d.handle(Event::DialFailure { error: "connection refused".to_string() });
    assert!(cmds.is_empty());
    assert_eq!(d.current_peer(), None);
    let cmds = d.handle(established("P1"));
    assert_eq!(cmds, vec![Command::RememberAddress { peer: peer("P1") }]);
    assert_eq!(d.current_peer(), Some(&peer("P1")));
}

#[test]
fn input_after_connection_is_sent_to_peer() {
    let mut d = Dispatcher::new();
    let cmds = d.handle(established("P1"));
    assert_eq!(cmds, vec![Command::RememberAddress { peer: peer("P1") }]);
    let cmds = d.handle(line("hello"));
    assert_eq!(cmds, vec![request_to("P1", "hello")]);
    let cmds = d.handle(Event::InboundResponse { peer: peer("P1"), response: ChatAck { ack: true } });
    assert!(cmds.is_empty());
    assert_eq!(d.current_peer(), Some(&peer("P1")));
}

#[test]
fn input_after_close_is_dropped() {
    let mut d = Dispatcher::new();
    d.handle(established("P1"));
    let cmds = d.handle(closed("P1"));
    assert!(cmds.is_empty());
    assert_eq!(d.current_peer(), None);
    let cmds = d.handle(line("hello"));
    assert!(cmds.is_empty());
}

#[test]
fn inbound_request_is_acknowledged_once() {
    let mut d = Dispatcher::new();
    let cmds = d.handle(Event::InboundRequest {
        peer: peer("P2"),
        channel: 7,
        request: ChatMessage { message: "hi".to_string() },
    });
    assert_eq!(cmds, vec![Command::SendResponse { channel: 7, response: ChatAck { ack: true } }]);
    let cmds = d.handle(Event::ResponseSent { peer: peer("P2") });
    assert!(cmds.is_empty());
}

#[test]
fn each_request_answered_on_its_own_channel() {
    let mut d = Dispatcher::new();
    d.handle(established("P1"));
    let mut sent = Vec::new();
    for channel in [1u64, 2, 3] {
        sent.extend(d.handle(Event::InboundRequest {
            peer: peer("P1"),
            channel,
            request: ChatMessage { message: format!("m{}", channel) },
        }));
    }
    let expected: Vec<Command> = [1u64, 2, 3]
        .iter()
        .map(|c| Command::SendResponse { channel: *c, response: ChatAck { ack: true } })
        .collect();
    assert_eq!(sent, expected);
}

#[test]
fn first_connected_peer_stays_target() {
    let mut d = Dispatcher::new();
    for name in ["P1", "P2", "P3"] {
        let cmds = d.handle(established(name));
        assert_eq!(cmds, vec![Command::RememberAddress { peer: peer(name) }]);
    }
    assert_eq!(d.current_peer(), Some(&peer("P1")));
    assert_eq!(d.handle(line("to the first")), vec![request_to("P1", "to the first")]);
}

#[test]
fn close_then_new_connection_promotes_new_peer() {
    let mut d = Dispatcher::new();
    d.handle(established("P1"));
    d.handle(closed("P1"));
    d.handle(established("P2"));
    d.handle(established("P3"));
    assert_eq!(d.current_peer(), Some(&peer("P2")));
}

#[test]
fn close_of_other_peer_clears_target() {
    let mut d = Dispatcher::new();
    d.handle(established("P1"));
    d.handle(established("P2"));
    d.handle(closed("P2"));
    assert_eq!(d.current_peer(), None);
}

#[test]
fn input_without_peer_is_dropped() {
    let mut d = Dispatcher::new();
    assert!(d.handle(line("nobody listens")).is_empty());
    assert!(d.handle(Event::InputEnded).is_empty());
    assert_eq!(d.current_peer(), None);
}

#[test]
fn input_payload_is_line_text() {
    let mut d = Dispatcher::new();
    d.handle(established("P1"));
    assert_eq!(d.handle(line("  two words ")), vec![request_to("P1", "  two words ")]);
    assert_eq!(d.handle(line("")), vec![request_to("P1", "")]);
}

#[test]
fn liveness_events_change_nothing() {
    let mut d = Dispatcher::new();
    d.handle(established("P1"));
    let ok = d.handle(Event::Liveness {
        peer: peer("P1"),
        outcome: LivenessOutcome::RoundTrip { micros: 1500 },
    });
    assert!(ok.is_empty());
    let failed = d.handle(Event::Liveness {
        peer: peer("P2"),
        outcome: LivenessOutcome::Failure { reason: "timeout".to_string() },
    });
    assert!(failed.is_empty());
    assert_eq!(d.current_peer(), Some(&peer("P1")));
    assert_eq!(d.handle(line("still here")), vec![request_to("P1", "still here")]);
}

#[test]
fn messaging_failures_are_not_fatal() {
    let mut d = Dispatcher::new();
    d.handle(established("P1"));
    let out = d.handle(Event::OutboundFailure { peer: peer("P1"), error: "timeout".to_string() });
    assert!(out.is_empty());
    let inb = d.handle(Event::InboundFailure { peer: peer("P1"), error: "decode".to_string() });
    assert!(inb.is_empty());
    assert_eq!(d.current_peer(), Some(&peer("P1")));
    assert_eq!(d.handle(line("after failures")), vec![request_to("P1", "after failures")]);
}

#[test]
fn listener_and_other_events_change_nothing() {
    let mut d = Dispatcher::new();
    assert!(d.handle(Event::ListenerBound { address: "/ip4/0.0.0.0/tcp/9999".to_string() }).is_empty());
    assert!(d.handle(Event::Other).is_empty());
    assert_eq!(d.current_peer(), None);
}

#[test]
fn session_state_transitions() {
    let mut s = SessionState::new();
    assert_eq!(s.current_peer(), None);
    s.on_connection_established(peer("A"));
    s.on_connection_established(peer("B"));
    assert_eq!(s.current_peer(), Some(&peer("A")));
    s.on_connection_closed();
    assert_eq!(s.current_peer(), None);
}

#[test]
fn peer_identity_and_ack_values() {
    let p = peer("12D3KooW");
    assert_eq!(p.duplicate(), p);
    assert_eq!(p.as_str(), "12D3KooW");
    assert!(ChatAck::accepted().ack);
    assert_eq!(CHAT_PROTOCOL, "/chat/1.0.0");
}
