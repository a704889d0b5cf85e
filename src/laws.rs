use vstd::prelude::*;

use crate::dispatch::{commands_for, next_peer, Command, Event};
use crate::message::PeerIdentity;

verus! {

/// Tracked peer after handling `es` in order, starting from `current`.
pub open spec fn peer_after(current: Option<PeerIdentity>, es: Seq<Event>) -> Option<PeerIdentity>
    decreases es.len(),
{
    if es.len() == 0 {
        current
    } else {
        peer_after(next_peer(current, es[0]), es.drop_first())
    }
}

/// All commands issued while handling `es` in order, starting from `current`.
pub open spec fn commands_after(current: Option<PeerIdentity>, es: Seq<Event>) -> Seq<Command>
    decreases es.len(),
{
    if es.len() == 0 {
        Seq::empty()
    } else {
        commands_for(current, es[0]) + commands_after(next_peer(current, es[0]), es.drop_first())
    }
}

/// The peer of the first connection established in `es`, if any.
pub open spec fn first_established(es: Seq<Event>) -> Option<PeerIdentity>
    decreases es.len(),
{
    if es.len() == 0 {
        None
    } else {
        match es[0] {
            Event::ConnectionEstablished { peer } => Some(peer),
            _ => first_established(es.drop_first()),
        }
    }
}

/// Number of responses in `cmds` sent on `channel`.
pub open spec fn responses_on(cmds: Seq<Command>, channel: u64) -> nat
    decreases cmds.len(),
{
    if cmds.len() == 0 {
        0
    } else {
        (match cmds[0] {
            Command::SendResponse { channel: c, .. } => if c == channel { 1nat } else { 0nat },
            _ => 0nat,
        }) + responses_on(cmds.drop_first(), channel)
    }
}

/// Number of inbound requests in `es` whose answer goes on `channel`.
pub open spec fn requests_on(es: Seq<Event>, channel: u64) -> nat
    decreases es.len(),
{
    if es.len() == 0 {
        0
    } else {
        (match es[0] {
            Event::InboundRequest { channel: c, .. } => if c == channel { 1nat } else { 0nat },
            _ => 0nat,
        }) + requests_on(es.drop_first(), channel)
    }
}

/// Every response in `cmds` carries a positive acknowledgement.
pub open spec fn all_responses_accept(cmds: Seq<Command>) -> bool {
    forall|i: int|
        0 <= i < cmds.len() ==> match #[trigger] cmds[i] {
            Command::SendResponse { response, .. } => response.ack,
            _ => true,
        }
}

pub open spec fn is_liveness(e: Event) -> bool {
    e is Liveness
}

pub open spec fn is_failure(e: Event) -> bool {
    e is OutboundFailure || e is InboundFailure || e is DialFailure
}

proof fn lemma_peer_after_append(current: Option<PeerIdentity>, a: Seq<Event>, b: Seq<Event>)
    ensures
        peer_after(current, a + b) == peer_after(peer_after(current, a), b),
    decreases a.len(),
{
    if a.len() > 0 {
        assert((a + b).drop_first() =~= a.drop_first() + b);
        lemma_peer_after_append(next_peer(current, a[0]), a.drop_first(), b);
    } else {
        assert(a + b =~= b);
    }
}

proof fn lemma_commands_after_append(current: Option<PeerIdentity>, a: Seq<Event>, b: Seq<Event>)
    ensures
        commands_after(current, a + b) == commands_after(current, a) + commands_after(
            peer_after(current, a),
            b,
        ),
    decreases a.len(),
{
    if a.len() > 0 {
        assert((a + b).drop_first() =~= a.drop_first() + b);
        lemma_commands_after_append(next_peer(current, a[0]), a.drop_first(), b);
        let x = commands_for(current, a[0]);
        let y = commands_after(next_peer(current, a[0]), a.drop_first());
        let z = commands_after(peer_after(current, a), b);
        assert(x + (y + z) =~= (x + y) + z);
    } else {
        assert(a + b =~= b);
        assert(Seq::<Command>::empty() + commands_after(current, b) =~= commands_after(current, b));
    }
}

proof fn lemma_responses_on_append(a: Seq<Command>, b: Seq<Command>, channel: u64)
    ensures
        responses_on(a + b, channel) == responses_on(a, channel) + responses_on(b, channel),
    decreases a.len(),
{
    if a.len() > 0 {
        assert((a + b).drop_first() =~= a.drop_first() + b);
        lemma_responses_on_append(a.drop_first(), b, channel);
    } else {
        assert(a + b =~= b);
    }
}

/// An event that neither changes the tracked peer nor issues a command can be
/// left out of any run without changing what the run does.
proof fn lemma_inert_event_transparent(
    current: Option<PeerIdentity>,
    before: Seq<Event>,
    e: Event,
    after: Seq<Event>,
)
    requires
        forall|p: Option<PeerIdentity>| next_peer(p, e) == p && commands_for(p, e).len() == 0,
    ensures
        peer_after(current, before + seq![e] + after) == peer_after(current, before + after),
        commands_after(current, before + seq![e] + after) == commands_after(
            current,
            before + after,
        ),
{
    let mid = peer_after(current, before);
    lemma_peer_after_append(current, before + seq![e], after);
    lemma_peer_after_append(current, before, seq![e]);
    lemma_peer_after_append(current, before, after);
    lemma_commands_after_append(current, before + seq![e], after);
    lemma_commands_after_append(current, before, seq![e]);
    lemma_commands_after_append(current, before, after);
    assert(seq![e].drop_first() =~= Seq::<Event>::empty());
    assert(seq![e][0] == e);
    assert(next_peer(mid, e) == mid);
    assert(commands_for(mid, e).len() == 0);
    assert(peer_after(next_peer(mid, e), Seq::<Event>::empty()) == mid);
    assert(peer_after(mid, seq![e]) == mid);
    assert(commands_after(next_peer(mid, e), Seq::<Event>::empty()) == Seq::<Command>::empty());
    assert(commands_after(mid, seq![e]) =~= Seq::<Command>::empty());
    assert(commands_after(current, before) + Seq::<Command>::empty() =~= commands_after(
        current,
        before,
    ));
}

/// Single target: while no connection closes, the tracked peer is the one
/// already tracked, or else the first peer that connects; a later peer never
/// replaces it.
pub proof fn lemma_first_connected_peer_wins(current: Option<PeerIdentity>, es: Seq<Event>)
    requires
        forall|i: int| 0 <= i < es.len() ==> !(#[trigger] es[i] is ConnectionClosed),
    ensures
        peer_after(current, es) == match current {
            Some(p) => Some(p),
            None => first_established(es),
        },
    decreases es.len(),
{
    if es.len() > 0 {
        assert forall|i: int| 0 <= i < es.drop_first().len() implies !(
        #[trigger] es.drop_first()[i] is ConnectionClosed) by {
            assert(es.drop_first()[i] == es[i + 1]);
        }
        assert(!(es[0] is ConnectionClosed));
        lemma_first_connected_peer_wins(next_peer(current, es[0]), es.drop_first());
    }
}

/// A closed connection is a full clear: what happened before it has no bearing
/// on the tracked peer afterwards.
pub proof fn lemma_close_clears_history(
    current: Option<PeerIdentity>,
    before: Seq<Event>,
    closed: PeerIdentity,
    after: Seq<Event>,
)
    ensures
        peer_after(current, before + seq![Event::ConnectionClosed { peer: closed }] + after)
            == peer_after(None, after),
{
    let e = Event::ConnectionClosed { peer: closed };
    lemma_peer_after_append(current, before + seq![e], after);
    lemma_peer_after_append(current, before, seq![e]);
    assert(seq![e].drop_first() =~= Seq::<Event>::empty());
    assert(seq![e][0] == e);
    let mid = peer_after(current, before);
    assert(peer_after(next_peer(mid, e), Seq::<Event>::empty()) == None::<PeerIdentity>);
    assert(peer_after(mid, seq![e]) == None::<PeerIdentity>);
}

/// Every inbound request is answered exactly once, on its own channel, with a
/// positive acknowledgement: the responses sent on a channel are as many as the
/// requests that arrived with it.
pub proof fn lemma_every_request_answered_once(
    current: Option<PeerIdentity>,
    es: Seq<Event>,
    channel: u64,
)
    ensures
        responses_on(commands_after(current, es), channel) == requests_on(es, channel),
        all_responses_accept(commands_after(current, es)),
    decreases es.len(),
{
    if es.len() > 0 {
        let x = commands_for(current, es[0]);
        let rest = commands_after(next_peer(current, es[0]), es.drop_first());
        lemma_every_request_answered_once(next_peer(current, es[0]), es.drop_first(), channel);
        lemma_responses_on_append(x, rest, channel);
        if x.len() > 0 {
            assert(x.drop_first() =~= Seq::<Command>::empty());
            assert(responses_on(x.drop_first(), channel) == 0);
        }
        match es[0] {
            Event::InboundRequest { channel: c, .. } => {
                assert(responses_on(x, channel) == if c == channel { 1nat } else { 0nat });
            },
            _ => {
                assert(responses_on(x, channel) == 0);
            },
        }
        assert forall|i: int| 0 <= i < (x + rest).len() implies match #[trigger] (x + rest)[i] {
            Command::SendResponse { response, .. } => response.ack,
            _ => true,
        } by {
            if i >= x.len() {
                assert((x + rest)[i] == rest[i - x.len()]);
            }
        }
    }
}

/// Liveness events neither change the tracked peer nor hold back anything:
/// removing one from any run leaves the run's tracked peer and its commands,
/// in order, unchanged.
pub proof fn lemma_liveness_independent(
    current: Option<PeerIdentity>,
    before: Seq<Event>,
    e: Event,
    after: Seq<Event>,
)
    requires
        is_liveness(e),
    ensures
        peer_after(current, before + seq![e] + after) == peer_after(current, before + after),
        commands_after(current, before + seq![e] + after) == commands_after(
            current,
            before + after,
        ),
{
    lemma_inert_event_transparent(current, before, e, after);
}

/// Failures of a dial, of an outbound or of an inbound exchange are not fatal:
/// the events after one are handled exactly as if it had not happened.
pub proof fn lemma_failure_not_fatal(
    current: Option<PeerIdentity>,
    before: Seq<Event>,
    e: Event,
    after: Seq<Event>,
)
    requires
        is_failure(e),
    ensures
        peer_after(current, before + seq![e] + after) == peer_after(current, before + after),
        commands_after(current, before + seq![e] + after) == commands_after(
            current,
            before + after,
        ),
{
    lemma_inert_event_transparent(current, before, e, after);
}

} // verus!
